//! Command sequencer: turns a configuration action into the exact ordered
//! list of single-register writes that realizes it.
//!
//! No sequence is atomic on the device — the protocol has no multi-register
//! transaction — so a caller that stops executing a sequence midway leaves
//! every earlier write in effect. The contracts here pin down the order and
//! content of every write, which is what makes that partial state knowable.

use vstd::prelude::*;

use crate::codec::{
    high_word, low_word, path_ctrl_word, peak_current_word, inductance_word, input_config_word,
    home_mode_word, spec_home_mode_word, spec_input_config_word, spec_path_ctrl_word, split_words,
    with_bit, word_bit,
};
use crate::registers::{
    CONTROL_WORD, FORCED_ENA, GC_CTRG_DOUBLE_EDGE_BIT, GC_CTRG_LEVEL_TRIGGER_BIT,
    GC_HOMING_POWER_UP_BIT, GC_SOFT_LIMIT_BIT, HOME_MODE, HOME_SWITCH_POS_HIGH,
    HOME_SWITCH_POS_LOW, HOMING_ACC, HOMING_AUX_CONFIG, HOMING_AUX_CONFIG_VALUE, HOMING_DEC,
    HOMING_HIGH_VELOCITY, HOMING_LOW_VELOCITY, HOMING_STOP_POS_HIGH, HOMING_STOP_POS_LOW,
    MOTOR_DIRECTION, MOTOR_INDUCTANCE, PATH0_BASE, PATH_ACC_OFFSET, PATH_DEC_OFFSET,
    PATH_PAUSE_TIME_OFFSET, PATH_POSITION_H_OFFSET, PATH_POSITION_L_OFFSET, PATH_VELOCITY_OFFSET,
    PEAK_CURRENT, PR_CTRL, PR_GLOBAL_CTRL_FCT, PULSE_PER_REV, SI1, SOFT_LIMIT_N_H, SOFT_LIMIT_N_L,
    SOFT_LIMIT_P_H, SOFT_LIMIT_P_L, get_path_base, input_register,
};
use crate::types::{
    ControlWord, Direction, DigitalInputFunction, Em2rsError, HomingConfig, HomingMethod,
    PathConfig, PathMotionType, PrControlCommand, StepperConfig,
};

verus! {

/// One primitive register operation: `value` goes to holding register
/// `addr`. The only unit this layer ever puts on the wire.
#[derive(Debug, Clone, Copy, PartialEq, Eq, Structural)]
pub struct RegWrite {
    pub addr: u16,
    pub value: u16,
}

// ---------------------------------------------------------------------------
// Single-register operations
// ---------------------------------------------------------------------------

/// The write that enables or disables forced software enable.
pub fn forced_enable_write(enable: bool) -> (r: RegWrite)
    ensures
        r == (RegWrite { addr: FORCED_ENA, value: if enable { 1u16 } else { 0u16 } }),
{
    RegWrite { addr: FORCED_ENA, value: if enable { 0x0001 } else { 0x0000 } }
}

/// The write that issues a control word command.
pub fn control_word_write(command: ControlWord) -> (r: RegWrite)
    ensures
        r == (RegWrite { addr: CONTROL_WORD, value: command.wire_word() }),
{
    RegWrite { addr: CONTROL_WORD, value: command.encode() }
}

/// The control word command that jogs the motor in `direction`.
pub open spec fn jog_command(direction: Direction) -> ControlWord {
    match direction {
        Direction::Clockwise => ControlWord::JogClockwise,
        Direction::CounterClockwise => ControlWord::JogCounterClockwise,
    }
}

/// The write that jogs the motor in `direction`.
pub fn jog_write(direction: Direction) -> (r: RegWrite)
    ensures
        r == (RegWrite { addr: CONTROL_WORD, value: jog_command(direction).wire_word() }),
{
    let command = match direction {
        Direction::Clockwise => ControlWord::JogClockwise,
        Direction::CounterClockwise => ControlWord::JogCounterClockwise,
    };
    control_word_write(command)
}

/// The write that issues a PR control command.
pub fn pr_control_write(command: PrControlCommand) -> (r: RegWrite)
    ensures
        r == (RegWrite { addr: PR_CTRL, value: command.wire_word() }),
{
    RegWrite { addr: PR_CTRL, value: command.encode() }
}

/// The write that starts path slot `path_id`: the run-the-path command base
/// with the path id in its low bits. Ids above 8 fail validation.
pub fn start_path_write(path_id: u8) -> (r: Result<RegWrite, Em2rsError>)
    ensures
        path_id <= 8 ==> r == Ok::<RegWrite, Em2rsError>(
            RegWrite {
                addr: PR_CTRL,
                value: (PrControlCommand::RunThePath.wire_word() + path_id) as u16,
            },
        ),
        path_id > 8 ==> r == Err::<RegWrite, Em2rsError>(Em2rsError::InvalidPath(path_id)),
{
    if path_id > 8 {
        return Err(Em2rsError::InvalidPath(path_id));
    }
    let command = PrControlCommand::RunThePath;
    Ok(RegWrite { addr: PR_CTRL, value: command.encode() + path_id as u16 })
}

/// The write that derives and sets the peak current from a phase current
/// given in milliamps.
pub fn peak_current_write(phase_current_ma: u16) -> (r: RegWrite)
    ensures
        r == (RegWrite { addr: PEAK_CURRENT, value: (phase_current_ma * 14 / 1000) as u16 }),
{
    RegWrite { addr: PEAK_CURRENT, value: peak_current_word(phase_current_ma) }
}

/// The write that sets the motor inductance, clamped at 10000.
pub fn motor_inductance_write(inductance: u16) -> (r: RegWrite)
    ensures
        r == (RegWrite {
            addr: MOTOR_INDUCTANCE,
            value: if inductance > 10000 { 10000u16 } else { inductance },
        }),
{
    RegWrite { addr: MOTOR_INDUCTANCE, value: inductance_word(inductance) }
}

/// The write that configures digital input `input_no` with a function and
/// polarity. Input numbers outside 1 through 7 fail validation with no
/// write at all.
pub fn input_config_write(
    input_no: u8,
    function: DigitalInputFunction,
    normally_closed: bool,
) -> (r: Result<RegWrite, Em2rsError>)
    ensures
        1 <= input_no <= 7 ==> r == Ok::<RegWrite, Em2rsError>(
            RegWrite {
                addr: (SI1 + (input_no - 1) * 2) as u16,
                value: spec_input_config_word(function, normally_closed),
            },
        ),
        !(1 <= input_no <= 7) ==> r == Err::<RegWrite, Em2rsError>(
            Em2rsError::InvalidDigitalInput(input_no),
        ),
{
    let addr = match input_register(input_no) {
        Ok(addr) => addr,
        Err(e) => {
            return Err(e);
        },
    };
    Ok(RegWrite { addr, value: input_config_word(function, normally_closed) })
}

// ---------------------------------------------------------------------------
// PR global control register updates (read-modify-write)
// ---------------------------------------------------------------------------

/// The write-back of the PR global control register with the CTRG
/// effective-edge bit forced to `double_edge` and every other bit kept.
pub fn ctrg_effective_edge_write(current: u16, double_edge: bool) -> (r: RegWrite)
    ensures
        r.addr == PR_GLOBAL_CTRL_FCT,
        word_bit(r.value, GC_CTRG_DOUBLE_EDGE_BIT) == double_edge,
        forall|j: u16|
            j < 16 && j != GC_CTRG_DOUBLE_EDGE_BIT ==> word_bit(r.value, j) == word_bit(current, j),
{
    RegWrite { addr: PR_GLOBAL_CTRL_FCT, value: with_bit(current, GC_CTRG_DOUBLE_EDGE_BIT, double_edge) }
}

/// The write-back of the PR global control register with the soft-limit
/// bit forced to `enable` and every other bit kept.
pub fn soft_limit_control_write(current: u16, enable: bool) -> (r: RegWrite)
    ensures
        r.addr == PR_GLOBAL_CTRL_FCT,
        word_bit(r.value, GC_SOFT_LIMIT_BIT) == enable,
        forall|j: u16|
            j < 16 && j != GC_SOFT_LIMIT_BIT ==> word_bit(r.value, j) == word_bit(current, j),
{
    RegWrite { addr: PR_GLOBAL_CTRL_FCT, value: with_bit(current, GC_SOFT_LIMIT_BIT, enable) }
}

/// The write-back of the PR global control register with the
/// homing-on-power-up bit forced to `enable` and every other bit kept.
pub fn homing_power_up_write(current: u16, enable: bool) -> (r: RegWrite)
    ensures
        r.addr == PR_GLOBAL_CTRL_FCT,
        word_bit(r.value, GC_HOMING_POWER_UP_BIT) == enable,
        forall|j: u16|
            j < 16 && j != GC_HOMING_POWER_UP_BIT ==> word_bit(r.value, j) == word_bit(current, j),
{
    RegWrite { addr: PR_GLOBAL_CTRL_FCT, value: with_bit(current, GC_HOMING_POWER_UP_BIT, enable) }
}

/// The write-back of the PR global control register with the CTRG
/// level-trigger bit forced to `level_trigger` and every other bit kept.
pub fn ctrg_trigger_type_write(current: u16, level_trigger: bool) -> (r: RegWrite)
    ensures
        r.addr == PR_GLOBAL_CTRL_FCT,
        word_bit(r.value, GC_CTRG_LEVEL_TRIGGER_BIT) == level_trigger,
        forall|j: u16|
            j < 16 && j != GC_CTRG_LEVEL_TRIGGER_BIT ==> word_bit(r.value, j) == word_bit(
                current,
                j,
            ),
{
    RegWrite {
        addr: PR_GLOBAL_CTRL_FCT,
        value: with_bit(current, GC_CTRG_LEVEL_TRIGGER_BIT, level_trigger),
    }
}

// ---------------------------------------------------------------------------
// Split 32-bit quantities: high word always before low word
// ---------------------------------------------------------------------------

/// The two writes that set the positive soft limit: high word first.
pub fn soft_limit_max_writes(max: u32) -> (r: Vec<RegWrite>)
    ensures
        r@ == seq![
            RegWrite { addr: SOFT_LIMIT_P_H, value: high_word(max) },
            RegWrite { addr: SOFT_LIMIT_P_L, value: low_word(max) },
        ],
{
    let (msb, lsb) = split_words(max);
    let mut writes: Vec<RegWrite> = Vec::new();
    writes.push(RegWrite { addr: SOFT_LIMIT_P_H, value: msb });
    writes.push(RegWrite { addr: SOFT_LIMIT_P_L, value: lsb });
    proof {
        assert(writes@ =~= seq![
            RegWrite { addr: SOFT_LIMIT_P_H, value: high_word(max) },
            RegWrite { addr: SOFT_LIMIT_P_L, value: low_word(max) },
        ]);
    }
    writes
}

/// The two writes that set the negative soft limit: high word first.
pub fn soft_limit_min_writes(min: u32) -> (r: Vec<RegWrite>)
    ensures
        r@ == seq![
            RegWrite { addr: SOFT_LIMIT_N_H, value: high_word(min) },
            RegWrite { addr: SOFT_LIMIT_N_L, value: low_word(min) },
        ],
{
    let (msb, lsb) = split_words(min);
    let mut writes: Vec<RegWrite> = Vec::new();
    writes.push(RegWrite { addr: SOFT_LIMIT_N_H, value: msb });
    writes.push(RegWrite { addr: SOFT_LIMIT_N_L, value: lsb });
    proof {
        assert(writes@ =~= seq![
            RegWrite { addr: SOFT_LIMIT_N_H, value: high_word(min) },
            RegWrite { addr: SOFT_LIMIT_N_L, value: low_word(min) },
        ]);
    }
    writes
}

/// The two writes that set the home switch position: high word first.
pub fn homing_position_writes(position: u32) -> (r: Vec<RegWrite>)
    ensures
        r@ == seq![
            RegWrite { addr: HOME_SWITCH_POS_HIGH, value: high_word(position) },
            RegWrite { addr: HOME_SWITCH_POS_LOW, value: low_word(position) },
        ],
{
    let (msb, lsb) = split_words(position);
    let mut writes: Vec<RegWrite> = Vec::new();
    writes.push(RegWrite { addr: HOME_SWITCH_POS_HIGH, value: msb });
    writes.push(RegWrite { addr: HOME_SWITCH_POS_LOW, value: lsb });
    proof {
        assert(writes@ =~= seq![
            RegWrite { addr: HOME_SWITCH_POS_HIGH, value: high_word(position) },
            RegWrite { addr: HOME_SWITCH_POS_LOW, value: low_word(position) },
        ]);
    }
    writes
}

/// The two writes that set the homing stop position: high word first.
pub fn homing_stop_position_writes(position: u32) -> (r: Vec<RegWrite>)
    ensures
        r@ == seq![
            RegWrite { addr: HOMING_STOP_POS_HIGH, value: high_word(position) },
            RegWrite { addr: HOMING_STOP_POS_LOW, value: low_word(position) },
        ],
{
    let (msb, lsb) = split_words(position);
    let mut writes: Vec<RegWrite> = Vec::new();
    writes.push(RegWrite { addr: HOMING_STOP_POS_HIGH, value: msb });
    writes.push(RegWrite { addr: HOMING_STOP_POS_LOW, value: lsb });
    proof {
        assert(writes@ =~= seq![
            RegWrite { addr: HOMING_STOP_POS_HIGH, value: high_word(position) },
            RegWrite { addr: HOMING_STOP_POS_LOW, value: low_word(position) },
        ]);
    }
    writes
}

// ---------------------------------------------------------------------------
// Homing parameters
// ---------------------------------------------------------------------------

/// The two writes that configure the homing mode: the packed mode word,
/// then the auxiliary fixed configuration register.
pub fn homing_mode_writes(direction: Direction, move_to_pos: bool, method: HomingMethod) -> (r:
    Vec<RegWrite>)
    ensures
        r@ == seq![
            RegWrite { addr: HOME_MODE, value: spec_home_mode_word(direction, move_to_pos, method) },
            RegWrite { addr: HOMING_AUX_CONFIG, value: HOMING_AUX_CONFIG_VALUE },
        ],
{
    let mut writes: Vec<RegWrite> = Vec::new();
    writes.push(RegWrite { addr: HOME_MODE, value: home_mode_word(direction, move_to_pos, method) });
    writes.push(RegWrite { addr: HOMING_AUX_CONFIG, value: HOMING_AUX_CONFIG_VALUE });
    proof {
        assert(writes@ =~= seq![
            RegWrite { addr: HOME_MODE, value: spec_home_mode_word(direction, move_to_pos, method) },
            RegWrite { addr: HOMING_AUX_CONFIG, value: HOMING_AUX_CONFIG_VALUE },
        ]);
    }
    writes
}

/// The write that sets the homing high velocity.
pub fn homing_high_velocity_write(rpm: u16) -> (r: RegWrite)
    ensures
        r == (RegWrite { addr: HOMING_HIGH_VELOCITY, value: rpm }),
{
    RegWrite { addr: HOMING_HIGH_VELOCITY, value: rpm }
}

/// The write that sets the homing low velocity.
pub fn homing_low_velocity_write(rpm: u16) -> (r: RegWrite)
    ensures
        r == (RegWrite { addr: HOMING_LOW_VELOCITY, value: rpm }),
{
    RegWrite { addr: HOMING_LOW_VELOCITY, value: rpm }
}

/// The write that sets the homing acceleration.
pub fn homing_acceleration_write(acc: u16) -> (r: RegWrite)
    ensures
        r == (RegWrite { addr: HOMING_ACC, value: acc }),
{
    RegWrite { addr: HOMING_ACC, value: acc }
}

/// The write that sets the homing deceleration.
pub fn homing_deceleration_write(dec: u16) -> (r: RegWrite)
    ensures
        r == (RegWrite { addr: HOMING_DEC, value: dec }),
{
    RegWrite { addr: HOMING_DEC, value: dec }
}

// ---------------------------------------------------------------------------
// Path parameters
// ---------------------------------------------------------------------------

/// The write that configures the control word of a path slot. Ids above 8
/// fail validation with no write.
pub fn path_motion_write(
    path_id: u8,
    motion_type: PathMotionType,
    interrupt: bool,
    overlap: bool,
    absolute: bool,
    jump: bool,
    jump_to: u8,
) -> (r: Result<RegWrite, Em2rsError>)
    ensures
        path_id <= 8 ==> r == Ok::<RegWrite, Em2rsError>(
            RegWrite {
                addr: (PATH0_BASE + 8 * path_id) as u16,
                value: spec_path_ctrl_word(motion_type, interrupt, overlap, absolute, jump, jump_to),
            },
        ),
        path_id > 8 ==> r == Err::<RegWrite, Em2rsError>(Em2rsError::InvalidPath(path_id)),
{
    let base = match get_path_base(path_id) {
        Some(base) => base,
        None => {
            return Err(Em2rsError::InvalidPath(path_id));
        },
    };
    Ok(RegWrite {
        addr: base,
        value: path_ctrl_word(motion_type, interrupt, overlap, absolute, jump, jump_to),
    })
}

/// The two writes that set a path's 32-bit position: high word first. Ids
/// above 8 fail validation with no write.
pub fn path_position_writes(path_id: u8, position: u32) -> (r: Result<Vec<RegWrite>, Em2rsError>)
    ensures
        path_id <= 8 ==> (r matches Ok(v) && v@ == seq![
            RegWrite {
                addr: (PATH0_BASE + 8 * path_id + PATH_POSITION_H_OFFSET) as u16,
                value: high_word(position),
            },
            RegWrite {
                addr: (PATH0_BASE + 8 * path_id + PATH_POSITION_L_OFFSET) as u16,
                value: low_word(position),
            },
        ]),
        path_id > 8 ==> r == Err::<Vec<RegWrite>, Em2rsError>(Em2rsError::InvalidPath(path_id)),
{
    let base = match get_path_base(path_id) {
        Some(base) => base,
        None => {
            return Err(Em2rsError::InvalidPath(path_id));
        },
    };
    let (msb, lsb) = split_words(position);
    let mut writes: Vec<RegWrite> = Vec::new();
    writes.push(RegWrite { addr: base + PATH_POSITION_H_OFFSET, value: msb });
    writes.push(RegWrite { addr: base + PATH_POSITION_L_OFFSET, value: lsb });
    proof {
        assert(writes@ =~= seq![
            RegWrite {
                addr: (PATH0_BASE + 8 * path_id + PATH_POSITION_H_OFFSET) as u16,
                value: high_word(position),
            },
            RegWrite {
                addr: (PATH0_BASE + 8 * path_id + PATH_POSITION_L_OFFSET) as u16,
                value: low_word(position),
            },
        ]);
    }
    Ok(writes)
}

/// The write that sets a path's velocity. Ids above 8 fail validation.
pub fn path_velocity_write(path_id: u8, rpm: u16) -> (r: Result<RegWrite, Em2rsError>)
    ensures
        path_id <= 8 ==> r == Ok::<RegWrite, Em2rsError>(
            RegWrite { addr: (PATH0_BASE + 8 * path_id + PATH_VELOCITY_OFFSET) as u16, value: rpm },
        ),
        path_id > 8 ==> r == Err::<RegWrite, Em2rsError>(Em2rsError::InvalidPath(path_id)),
{
    let base = match get_path_base(path_id) {
        Some(base) => base,
        None => {
            return Err(Em2rsError::InvalidPath(path_id));
        },
    };
    Ok(RegWrite { addr: base + PATH_VELOCITY_OFFSET, value: rpm })
}

/// The write that sets a path's acceleration. Ids above 8 fail validation.
pub fn path_acceleration_write(path_id: u8, acc: u16) -> (r: Result<RegWrite, Em2rsError>)
    ensures
        path_id <= 8 ==> r == Ok::<RegWrite, Em2rsError>(
            RegWrite { addr: (PATH0_BASE + 8 * path_id + PATH_ACC_OFFSET) as u16, value: acc },
        ),
        path_id > 8 ==> r == Err::<RegWrite, Em2rsError>(Em2rsError::InvalidPath(path_id)),
{
    let base = match get_path_base(path_id) {
        Some(base) => base,
        None => {
            return Err(Em2rsError::InvalidPath(path_id));
        },
    };
    Ok(RegWrite { addr: base + PATH_ACC_OFFSET, value: acc })
}

/// The write that sets a path's deceleration. Ids above 8 fail validation.
pub fn path_deceleration_write(path_id: u8, dec: u16) -> (r: Result<RegWrite, Em2rsError>)
    ensures
        path_id <= 8 ==> r == Ok::<RegWrite, Em2rsError>(
            RegWrite { addr: (PATH0_BASE + 8 * path_id + PATH_DEC_OFFSET) as u16, value: dec },
        ),
        path_id > 8 ==> r == Err::<RegWrite, Em2rsError>(Em2rsError::InvalidPath(path_id)),
{
    let base = match get_path_base(path_id) {
        Some(base) => base,
        None => {
            return Err(Em2rsError::InvalidPath(path_id));
        },
    };
    Ok(RegWrite { addr: base + PATH_DEC_OFFSET, value: dec })
}

/// The write that sets a path's pause time. Ids above 8 fail validation.
pub fn path_pause_time_write(path_id: u8, ms: u16) -> (r: Result<RegWrite, Em2rsError>)
    ensures
        path_id <= 8 ==> r == Ok::<RegWrite, Em2rsError>(
            RegWrite { addr: (PATH0_BASE + 8 * path_id + PATH_PAUSE_TIME_OFFSET) as u16, value: ms },
        ),
        path_id > 8 ==> r == Err::<RegWrite, Em2rsError>(Em2rsError::InvalidPath(path_id)),
{
    let base = match get_path_base(path_id) {
        Some(base) => base,
        None => {
            return Err(Em2rsError::InvalidPath(path_id));
        },
    };
    Ok(RegWrite { addr: base + PATH_PAUSE_TIME_OFFSET, value: ms })
}

// ---------------------------------------------------------------------------
// Composite sequences
// ---------------------------------------------------------------------------

/// The initialization sequence: pulses per revolution, direction, derived
/// peak current, clamped inductance — in that fixed order.
pub open spec fn spec_init_writes(c: StepperConfig) -> Seq<RegWrite> {
    seq![
        RegWrite { addr: PULSE_PER_REV, value: c.pulse_per_rev },
        RegWrite { addr: MOTOR_DIRECTION, value: c.direction.wire_word() },
        RegWrite { addr: PEAK_CURRENT, value: (c.phase_current_ma * 14 / 1000) as u16 },
        RegWrite {
            addr: MOTOR_INDUCTANCE,
            value: if c.inductance > 10000 { 10000u16 } else { c.inductance },
        },
    ]
}

/// The ordered writes that initialize a stepper from its configuration.
pub fn init_writes(config: &StepperConfig) -> (r: Vec<RegWrite>)
    ensures
        r@ == spec_init_writes(*config),
{
    let mut writes: Vec<RegWrite> = Vec::new();
    writes.push(RegWrite { addr: PULSE_PER_REV, value: config.pulse_per_rev });
    writes.push(RegWrite { addr: MOTOR_DIRECTION, value: config.direction.encode() });
    writes.push(peak_current_write(config.phase_current_ma));
    writes.push(motor_inductance_write(config.inductance));
    proof {
        assert(writes@ =~= spec_init_writes(*config));
    }
    writes
}

/// The homing application sequence, in its fixed order: the triggering
/// input's configuration, the packed homing mode word, the auxiliary fixed
/// register, home position (high then low), stop position (high then low),
/// high velocity, low velocity, acceleration, deceleration.
pub open spec fn spec_homing_config_writes(c: HomingConfig) -> Seq<RegWrite>
    recommends
        1 <= c.input_no <= 7,
{
    seq![
        RegWrite {
            addr: (SI1 + (c.input_no - 1) * 2) as u16,
            value: spec_input_config_word(c.function, c.normally_closed),
        },
        RegWrite {
            addr: HOME_MODE,
            value: spec_home_mode_word(c.direction, c.move_to_pos_after, c.method),
        },
        RegWrite { addr: HOMING_AUX_CONFIG, value: HOMING_AUX_CONFIG_VALUE },
        RegWrite { addr: HOME_SWITCH_POS_HIGH, value: high_word(c.position) },
        RegWrite { addr: HOME_SWITCH_POS_LOW, value: low_word(c.position) },
        RegWrite { addr: HOMING_STOP_POS_HIGH, value: high_word(c.position_stop) },
        RegWrite { addr: HOMING_STOP_POS_LOW, value: low_word(c.position_stop) },
        RegWrite { addr: HOMING_HIGH_VELOCITY, value: c.high_velocity },
        RegWrite { addr: HOMING_LOW_VELOCITY, value: c.low_velocity },
        RegWrite { addr: HOMING_ACC, value: c.acceleration },
        RegWrite { addr: HOMING_DEC, value: c.deceleration },
    ]
}

/// The ordered writes that apply a complete homing configuration, or the
/// validation failure raised — before any write — when the triggering
/// input number is out of range.
pub fn homing_config_writes(config: &HomingConfig) -> (r: Result<Vec<RegWrite>, Em2rsError>)
    ensures
        1 <= config.input_no <= 7 ==> (r matches Ok(v) && v@ == spec_homing_config_writes(
            *config,
        )),
        !(1 <= config.input_no <= 7) ==> r == Err::<Vec<RegWrite>, Em2rsError>(
            Em2rsError::InvalidDigitalInput(config.input_no),
        ),
{
    let input_write = match input_config_write(
        config.input_no,
        config.function,
        config.normally_closed,
    ) {
        Ok(w) => w,
        Err(e) => {
            return Err(e);
        },
    };
    let mut writes: Vec<RegWrite> = Vec::new();
    writes.push(input_write);
    writes.push(RegWrite {
        addr: HOME_MODE,
        value: home_mode_word(config.direction, config.move_to_pos_after, config.method),
    });
    writes.push(RegWrite { addr: HOMING_AUX_CONFIG, value: HOMING_AUX_CONFIG_VALUE });
    let (pos_h, pos_l) = split_words(config.position);
    writes.push(RegWrite { addr: HOME_SWITCH_POS_HIGH, value: pos_h });
    writes.push(RegWrite { addr: HOME_SWITCH_POS_LOW, value: pos_l });
    let (stop_h, stop_l) = split_words(config.position_stop);
    writes.push(RegWrite { addr: HOMING_STOP_POS_HIGH, value: stop_h });
    writes.push(RegWrite { addr: HOMING_STOP_POS_LOW, value: stop_l });
    writes.push(RegWrite { addr: HOMING_HIGH_VELOCITY, value: config.high_velocity });
    writes.push(RegWrite { addr: HOMING_LOW_VELOCITY, value: config.low_velocity });
    writes.push(RegWrite { addr: HOMING_ACC, value: config.acceleration });
    writes.push(RegWrite { addr: HOMING_DEC, value: config.deceleration });
    proof {
        assert(writes@ =~= spec_homing_config_writes(*config));
    }
    Ok(writes)
}

/// The path application sequence, in its fixed order: the control word
/// (motion type fixed to position positioning, with the absolute flag from
/// the configuration), position high then low, velocity, acceleration,
/// deceleration — and the pause time only when it is non-zero, a zero
/// pause time meaning "leave the default", not an explicit zero write.
pub open spec fn spec_path_config_writes(c: PathConfig) -> Seq<RegWrite>
    recommends
        c.path_id <= 8,
{
    let base = (PATH0_BASE + 8 * c.path_id) as u16;
    let head = seq![
        RegWrite {
            addr: base,
            value: spec_path_ctrl_word(
                PathMotionType::PositionPositioning,
                false,
                false,
                c.absolute_position,
                false,
                0,
            ),
        },
        RegWrite { addr: (base + PATH_POSITION_H_OFFSET) as u16, value: high_word(c.position) },
        RegWrite { addr: (base + PATH_POSITION_L_OFFSET) as u16, value: low_word(c.position) },
        RegWrite { addr: (base + PATH_VELOCITY_OFFSET) as u16, value: c.velocity },
        RegWrite { addr: (base + PATH_ACC_OFFSET) as u16, value: c.acceleration },
        RegWrite { addr: (base + PATH_DEC_OFFSET) as u16, value: c.deceleration },
    ];
    if c.pause_time > 0 {
        head + seq![RegWrite { addr: (base + PATH_PAUSE_TIME_OFFSET) as u16, value: c.pause_time }]
    } else {
        head
    }
}

/// The ordered writes that apply a complete path configuration, or the
/// validation failure raised — before any write — when the path id is
/// above 8.
pub fn path_config_writes(config: &PathConfig) -> (r: Result<Vec<RegWrite>, Em2rsError>)
    ensures
        config.path_id <= 8 ==> (r matches Ok(v) && v@ == spec_path_config_writes(*config)),
        config.path_id > 8 ==> r == Err::<Vec<RegWrite>, Em2rsError>(
            Em2rsError::InvalidPath(config.path_id),
        ),
{
    let base = match get_path_base(config.path_id) {
        Some(base) => base,
        None => {
            return Err(Em2rsError::InvalidPath(config.path_id));
        },
    };
    let mut writes: Vec<RegWrite> = Vec::new();
    writes.push(RegWrite {
        addr: base,
        value: path_ctrl_word(
            PathMotionType::PositionPositioning,
            false,
            false,
            config.absolute_position,
            false,
            0,
        ),
    });
    let (pos_h, pos_l) = split_words(config.position);
    writes.push(RegWrite { addr: base + PATH_POSITION_H_OFFSET, value: pos_h });
    writes.push(RegWrite { addr: base + PATH_POSITION_L_OFFSET, value: pos_l });
    writes.push(RegWrite { addr: base + PATH_VELOCITY_OFFSET, value: config.velocity });
    writes.push(RegWrite { addr: base + PATH_ACC_OFFSET, value: config.acceleration });
    writes.push(RegWrite { addr: base + PATH_DEC_OFFSET, value: config.deceleration });
    if config.pause_time > 0 {
        writes.push(RegWrite { addr: base + PATH_PAUSE_TIME_OFFSET, value: config.pause_time });
    }
    proof {
        assert(writes@ =~= spec_path_config_writes(*config));
    }
    Ok(writes)
}

// ---------------------------------------------------------------------------
// Laws about the composite sequences
// ---------------------------------------------------------------------------

/// In an applied path sequence the high position word stands right before
/// the low one, and rejoining the two words written gives back the
/// configured position exactly.
pub proof fn lemma_path_plan_position_round_trip(c: PathConfig)
    requires
        c.path_id <= 8,
    ensures
        crate::codec::join_words(
            spec_path_config_writes(c)[1].value,
            spec_path_config_writes(c)[2].value,
        ) == c.position,
{
    crate::codec::lemma_split_join(c.position);
}

/// In an applied homing sequence both 32-bit positions are written high
/// word first, and rejoining each pair gives back the configured values
/// exactly.
pub proof fn lemma_homing_plan_positions_round_trip(c: HomingConfig)
    requires
        1 <= c.input_no <= 7,
    ensures
        crate::codec::join_words(
            spec_homing_config_writes(c)[3].value,
            spec_homing_config_writes(c)[4].value,
        ) == c.position,
        crate::codec::join_words(
            spec_homing_config_writes(c)[5].value,
            spec_homing_config_writes(c)[6].value,
        ) == c.position_stop,
{
    crate::codec::lemma_split_join(c.position);
    crate::codec::lemma_split_join(c.position_stop);
}

} // verus!
