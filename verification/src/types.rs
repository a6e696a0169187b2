//! Domain types: wire-encoded enumerations, status words, configuration
//! records and the validation errors raised before any register is touched.

use vstd::prelude::*;

use crate::registers::{
    MS_CMD_COMPLETE, MS_ENABLE, MS_FAULT, MS_HOMING_COMPLETE, MS_PATH_COMPLETE, MS_RUNNING,
};

verus! {

/// A failure detected by this layer before any register operation is issued.
///
/// Transport failures are the channel's to report; the translation layer
/// itself only ever rejects out-of-range inputs, deterministically and with
/// zero side effects on the device.
#[derive(Debug, Clone, Copy, PartialEq, Eq, Structural)]
pub enum Em2rsError {
    /// A path slot id above 8.
    InvalidPath(u8),
    /// A digital input number outside 1 through 7.
    InvalidDigitalInput(u8),
}

/// Motor rotation direction.
#[derive(Debug, Clone, Copy, PartialEq, Eq, Structural)]
pub enum Direction {
    Clockwise,
    CounterClockwise,
}

impl Direction {
    /// The fixed wire encoding of each variant.
    pub open spec fn wire_word(self) -> u16 {
        match self {
            Direction::Clockwise => 0x00,
            Direction::CounterClockwise => 0x01,
        }
    }

    pub open spec fn spec_decode(word: u16) -> Option<Direction> {
        match word {
            0x00 => Some(Direction::Clockwise),
            0x01 => Some(Direction::CounterClockwise),
            _ => None,
        }
    }

    pub fn encode(self) -> (word: u16)
        ensures
            word == self.wire_word(),
    {
        match self {
            Direction::Clockwise => 0x00,
            Direction::CounterClockwise => 0x01,
        }
    }

    pub fn decode(word: u16) -> (r: Option<Direction>)
        ensures
            r == Self::spec_decode(word),
    {
        match word {
            0x00 => Some(Direction::Clockwise),
            0x01 => Some(Direction::CounterClockwise),
            _ => None,
        }
    }
}

/// Encoding a direction and decoding the word gives the direction back.
pub proof fn lemma_direction_round_trip(v: Direction)
    ensures
        Direction::spec_decode(v.wire_word()) == Some(v),
{
}

/// Digital input function.
#[derive(Debug, Clone, Copy, PartialEq, Eq, Structural)]
pub enum DigitalInputFunction {
    Invalid,
    AlarmClearing,
    Enable,
    TriggerCmd,
    TriggerHoming,
    Emergency,
    JogPositive,
    JogNegative,
    Pot,
    Not,
    Org,
    Add0,
    Add1,
    Add2,
    Add3,
    JogVelocity,
}

impl DigitalInputFunction {
    /// The fixed wire encoding of each variant.
    pub open spec fn wire_word(self) -> u16 {
        match self {
            DigitalInputFunction::Invalid => 0x00,
            DigitalInputFunction::AlarmClearing => 0x07,
            DigitalInputFunction::Enable => 0x08,
            DigitalInputFunction::TriggerCmd => 0x20,
            DigitalInputFunction::TriggerHoming => 0x21,
            DigitalInputFunction::Emergency => 0x22,
            DigitalInputFunction::JogPositive => 0x23,
            DigitalInputFunction::JogNegative => 0x24,
            DigitalInputFunction::Pot => 0x25,
            DigitalInputFunction::Not => 0x26,
            DigitalInputFunction::Org => 0x27,
            DigitalInputFunction::Add0 => 0x28,
            DigitalInputFunction::Add1 => 0x29,
            DigitalInputFunction::Add2 => 0x2A,
            DigitalInputFunction::Add3 => 0x2B,
            DigitalInputFunction::JogVelocity => 0x2C,
        }
    }

    pub open spec fn spec_decode(word: u16) -> Option<DigitalInputFunction> {
        match word {
            0x00 => Some(DigitalInputFunction::Invalid),
            0x07 => Some(DigitalInputFunction::AlarmClearing),
            0x08 => Some(DigitalInputFunction::Enable),
            0x20 => Some(DigitalInputFunction::TriggerCmd),
            0x21 => Some(DigitalInputFunction::TriggerHoming),
            0x22 => Some(DigitalInputFunction::Emergency),
            0x23 => Some(DigitalInputFunction::JogPositive),
            0x24 => Some(DigitalInputFunction::JogNegative),
            0x25 => Some(DigitalInputFunction::Pot),
            0x26 => Some(DigitalInputFunction::Not),
            0x27 => Some(DigitalInputFunction::Org),
            0x28 => Some(DigitalInputFunction::Add0),
            0x29 => Some(DigitalInputFunction::Add1),
            0x2A => Some(DigitalInputFunction::Add2),
            0x2B => Some(DigitalInputFunction::Add3),
            0x2C => Some(DigitalInputFunction::JogVelocity),
            _ => None,
        }
    }

    pub fn encode(self) -> (word: u16)
        ensures
            word == self.wire_word(),
    {
        match self {
            DigitalInputFunction::Invalid => 0x00,
            DigitalInputFunction::AlarmClearing => 0x07,
            DigitalInputFunction::Enable => 0x08,
            DigitalInputFunction::TriggerCmd => 0x20,
            DigitalInputFunction::TriggerHoming => 0x21,
            DigitalInputFunction::Emergency => 0x22,
            DigitalInputFunction::JogPositive => 0x23,
            DigitalInputFunction::JogNegative => 0x24,
            DigitalInputFunction::Pot => 0x25,
            DigitalInputFunction::Not => 0x26,
            DigitalInputFunction::Org => 0x27,
            DigitalInputFunction::Add0 => 0x28,
            DigitalInputFunction::Add1 => 0x29,
            DigitalInputFunction::Add2 => 0x2A,
            DigitalInputFunction::Add3 => 0x2B,
            DigitalInputFunction::JogVelocity => 0x2C,
        }
    }

    pub fn decode(word: u16) -> (r: Option<DigitalInputFunction>)
        ensures
            r == Self::spec_decode(word),
    {
        match word {
            0x00 => Some(DigitalInputFunction::Invalid),
            0x07 => Some(DigitalInputFunction::AlarmClearing),
            0x08 => Some(DigitalInputFunction::Enable),
            0x20 => Some(DigitalInputFunction::TriggerCmd),
            0x21 => Some(DigitalInputFunction::TriggerHoming),
            0x22 => Some(DigitalInputFunction::Emergency),
            0x23 => Some(DigitalInputFunction::JogPositive),
            0x24 => Some(DigitalInputFunction::JogNegative),
            0x25 => Some(DigitalInputFunction::Pot),
            0x26 => Some(DigitalInputFunction::Not),
            0x27 => Some(DigitalInputFunction::Org),
            0x28 => Some(DigitalInputFunction::Add0),
            0x29 => Some(DigitalInputFunction::Add1),
            0x2A => Some(DigitalInputFunction::Add2),
            0x2B => Some(DigitalInputFunction::Add3),
            0x2C => Some(DigitalInputFunction::JogVelocity),
            _ => None,
        }
    }
}

/// Encoding an input function and decoding the word gives it back.
pub proof fn lemma_digital_input_function_round_trip(v: DigitalInputFunction)
    ensures
        DigitalInputFunction::spec_decode(v.wire_word()) == Some(v),
{
}

/// Digital output function.
#[derive(Debug, Clone, Copy, PartialEq, Eq, Structural)]
pub enum DigitalOutputFunction {
    Invalid,
    CmdCompleted,
    PathCompleted,
    HomingCompleted,
    InPosCompleted,
    BrakeOutput,
    AlarmOutput,
}

impl DigitalOutputFunction {
    /// The fixed wire encoding of each variant.
    pub open spec fn wire_word(self) -> u16 {
        match self {
            DigitalOutputFunction::Invalid => 0x00,
            DigitalOutputFunction::CmdCompleted => 0x20,
            DigitalOutputFunction::PathCompleted => 0x21,
            DigitalOutputFunction::HomingCompleted => 0x22,
            DigitalOutputFunction::InPosCompleted => 0x23,
            DigitalOutputFunction::BrakeOutput => 0x24,
            DigitalOutputFunction::AlarmOutput => 0x25,
        }
    }

    pub open spec fn spec_decode(word: u16) -> Option<DigitalOutputFunction> {
        match word {
            0x00 => Some(DigitalOutputFunction::Invalid),
            0x20 => Some(DigitalOutputFunction::CmdCompleted),
            0x21 => Some(DigitalOutputFunction::PathCompleted),
            0x22 => Some(DigitalOutputFunction::HomingCompleted),
            0x23 => Some(DigitalOutputFunction::InPosCompleted),
            0x24 => Some(DigitalOutputFunction::BrakeOutput),
            0x25 => Some(DigitalOutputFunction::AlarmOutput),
            _ => None,
        }
    }

    pub fn encode(self) -> (word: u16)
        ensures
            word == self.wire_word(),
    {
        match self {
            DigitalOutputFunction::Invalid => 0x00,
            DigitalOutputFunction::CmdCompleted => 0x20,
            DigitalOutputFunction::PathCompleted => 0x21,
            DigitalOutputFunction::HomingCompleted => 0x22,
            DigitalOutputFunction::InPosCompleted => 0x23,
            DigitalOutputFunction::BrakeOutput => 0x24,
            DigitalOutputFunction::AlarmOutput => 0x25,
        }
    }

    pub fn decode(word: u16) -> (r: Option<DigitalOutputFunction>)
        ensures
            r == Self::spec_decode(word),
    {
        match word {
            0x00 => Some(DigitalOutputFunction::Invalid),
            0x20 => Some(DigitalOutputFunction::CmdCompleted),
            0x21 => Some(DigitalOutputFunction::PathCompleted),
            0x22 => Some(DigitalOutputFunction::HomingCompleted),
            0x23 => Some(DigitalOutputFunction::InPosCompleted),
            0x24 => Some(DigitalOutputFunction::BrakeOutput),
            0x25 => Some(DigitalOutputFunction::AlarmOutput),
            _ => None,
        }
    }
}

/// Encoding an output function and decoding the word gives it back.
pub proof fn lemma_digital_output_function_round_trip(v: DigitalOutputFunction)
    ensures
        DigitalOutputFunction::spec_decode(v.wire_word()) == Some(v),
{
}

/// Control word commands.
#[derive(Debug, Clone, Copy, PartialEq, Eq, Structural)]
pub enum ControlWord {
    ResetCurrentAlarm,
    ResetHistoryAlarm,
    SaveParamEeprom,
    ParamReset,
    FactoryReset,
    SaveMappingEeprom,
    JogClockwise,
    JogCounterClockwise,
}

impl ControlWord {
    /// The fixed wire encoding of each variant.
    pub open spec fn wire_word(self) -> u16 {
        match self {
            ControlWord::ResetCurrentAlarm => 0x1111,
            ControlWord::ResetHistoryAlarm => 0x1122,
            ControlWord::SaveParamEeprom => 0x2211,
            ControlWord::ParamReset => 0x2222,
            ControlWord::FactoryReset => 0x2233,
            ControlWord::SaveMappingEeprom => 0x2244,
            ControlWord::JogClockwise => 0x4001,
            ControlWord::JogCounterClockwise => 0x4002,
        }
    }

    pub open spec fn spec_decode(word: u16) -> Option<ControlWord> {
        match word {
            0x1111 => Some(ControlWord::ResetCurrentAlarm),
            0x1122 => Some(ControlWord::ResetHistoryAlarm),
            0x2211 => Some(ControlWord::SaveParamEeprom),
            0x2222 => Some(ControlWord::ParamReset),
            0x2233 => Some(ControlWord::FactoryReset),
            0x2244 => Some(ControlWord::SaveMappingEeprom),
            0x4001 => Some(ControlWord::JogClockwise),
            0x4002 => Some(ControlWord::JogCounterClockwise),
            _ => None,
        }
    }

    pub fn encode(self) -> (word: u16)
        ensures
            word == self.wire_word(),
    {
        match self {
            ControlWord::ResetCurrentAlarm => 0x1111,
            ControlWord::ResetHistoryAlarm => 0x1122,
            ControlWord::SaveParamEeprom => 0x2211,
            ControlWord::ParamReset => 0x2222,
            ControlWord::FactoryReset => 0x2233,
            ControlWord::SaveMappingEeprom => 0x2244,
            ControlWord::JogClockwise => 0x4001,
            ControlWord::JogCounterClockwise => 0x4002,
        }
    }

    pub fn decode(word: u16) -> (r: Option<ControlWord>)
        ensures
            r == Self::spec_decode(word),
    {
        match word {
            0x1111 => Some(ControlWord::ResetCurrentAlarm),
            0x1122 => Some(ControlWord::ResetHistoryAlarm),
            0x2211 => Some(ControlWord::SaveParamEeprom),
            0x2222 => Some(ControlWord::ParamReset),
            0x2233 => Some(ControlWord::FactoryReset),
            0x2244 => Some(ControlWord::SaveMappingEeprom),
            0x4001 => Some(ControlWord::JogClockwise),
            0x4002 => Some(ControlWord::JogCounterClockwise),
            _ => None,
        }
    }
}

/// Encoding a control word command and decoding the word gives it back.
pub proof fn lemma_control_word_round_trip(v: ControlWord)
    ensures
        ControlWord::spec_decode(v.wire_word()) == Some(v),
{
}

/// Save parameter status word.
#[derive(Debug, Clone, Copy, PartialEq, Eq, Structural)]
pub enum SaveParameterStatus {
    SaveSuccessfully,
    FailedToSave,
}

impl SaveParameterStatus {
    /// The fixed wire encoding of each variant.
    pub open spec fn wire_word(self) -> u16 {
        match self {
            SaveParameterStatus::SaveSuccessfully => 0x5555,
            SaveParameterStatus::FailedToSave => 0xAAAA,
        }
    }

    pub open spec fn spec_decode(word: u16) -> Option<SaveParameterStatus> {
        match word {
            0x5555 => Some(SaveParameterStatus::SaveSuccessfully),
            0xAAAA => Some(SaveParameterStatus::FailedToSave),
            _ => None,
        }
    }

    pub fn encode(self) -> (word: u16)
        ensures
            word == self.wire_word(),
    {
        match self {
            SaveParameterStatus::SaveSuccessfully => 0x5555,
            SaveParameterStatus::FailedToSave => 0xAAAA,
        }
    }

    pub fn decode(word: u16) -> (r: Option<SaveParameterStatus>)
        ensures
            r == Self::spec_decode(word),
    {
        match word {
            0x5555 => Some(SaveParameterStatus::SaveSuccessfully),
            0xAAAA => Some(SaveParameterStatus::FailedToSave),
            _ => None,
        }
    }
}

/// Encoding a save status and decoding the word gives it back.
pub proof fn lemma_save_parameter_status_round_trip(v: SaveParameterStatus)
    ensures
        SaveParameterStatus::spec_decode(v.wire_word()) == Some(v),
{
}

/// Homing method.
#[derive(Debug, Clone, Copy, PartialEq, Eq, Structural)]
pub enum HomingMethod {
    LimitSwitch,
    HomeSwitch,
}

impl HomingMethod {
    /// The fixed wire encoding of each variant.
    pub open spec fn wire_word(self) -> u16 {
        match self {
            HomingMethod::LimitSwitch => 0x00,
            HomingMethod::HomeSwitch => 0x04,
        }
    }

    pub open spec fn spec_decode(word: u16) -> Option<HomingMethod> {
        match word {
            0x00 => Some(HomingMethod::LimitSwitch),
            0x04 => Some(HomingMethod::HomeSwitch),
            _ => None,
        }
    }

    pub fn encode(self) -> (word: u16)
        ensures
            word == self.wire_word(),
    {
        match self {
            HomingMethod::LimitSwitch => 0x00,
            HomingMethod::HomeSwitch => 0x04,
        }
    }

    pub fn decode(word: u16) -> (r: Option<HomingMethod>)
        ensures
            r == Self::spec_decode(word),
    {
        match word {
            0x00 => Some(HomingMethod::LimitSwitch),
            0x04 => Some(HomingMethod::HomeSwitch),
            _ => None,
        }
    }
}

/// Encoding a homing method and decoding the word gives it back.
pub proof fn lemma_homing_method_round_trip(v: HomingMethod)
    ensures
        HomingMethod::spec_decode(v.wire_word()) == Some(v),
{
}

/// PR control register commands.
#[derive(Debug, Clone, Copy, PartialEq, Eq, Structural)]
pub enum PrControlCommand {
    RunThePath,
    Homing,
    ManualZero,
    QuickStop,
}

impl PrControlCommand {
    /// The fixed wire encoding of each variant.
    pub open spec fn wire_word(self) -> u16 {
        match self {
            PrControlCommand::RunThePath => 0x10,
            PrControlCommand::Homing => 0x20,
            PrControlCommand::ManualZero => 0x21,
            PrControlCommand::QuickStop => 0x40,
        }
    }

    pub open spec fn spec_decode(word: u16) -> Option<PrControlCommand> {
        match word {
            0x10 => Some(PrControlCommand::RunThePath),
            0x20 => Some(PrControlCommand::Homing),
            0x21 => Some(PrControlCommand::ManualZero),
            0x40 => Some(PrControlCommand::QuickStop),
            _ => None,
        }
    }

    pub fn encode(self) -> (word: u16)
        ensures
            word == self.wire_word(),
    {
        match self {
            PrControlCommand::RunThePath => 0x10,
            PrControlCommand::Homing => 0x20,
            PrControlCommand::ManualZero => 0x21,
            PrControlCommand::QuickStop => 0x40,
        }
    }

    pub fn decode(word: u16) -> (r: Option<PrControlCommand>)
        ensures
            r == Self::spec_decode(word),
    {
        match word {
            0x10 => Some(PrControlCommand::RunThePath),
            0x20 => Some(PrControlCommand::Homing),
            0x21 => Some(PrControlCommand::ManualZero),
            0x40 => Some(PrControlCommand::QuickStop),
            _ => None,
        }
    }
}

/// Encoding a PR command and decoding the word gives it back.
pub proof fn lemma_pr_control_command_round_trip(v: PrControlCommand)
    ensures
        PrControlCommand::spec_decode(v.wire_word()) == Some(v),
{
}

/// Path motion type.
#[derive(Debug, Clone, Copy, PartialEq, Eq, Structural)]
pub enum PathMotionType {
    NoAction,
    PositionPositioning,
    VelocityMovement,
    Homing,
}

impl PathMotionType {
    /// The fixed wire encoding of each variant.
    pub open spec fn wire_word(self) -> u16 {
        match self {
            PathMotionType::NoAction => 0x00,
            PathMotionType::PositionPositioning => 0x01,
            PathMotionType::VelocityMovement => 0x02,
            PathMotionType::Homing => 0x03,
        }
    }

    pub open spec fn spec_decode(word: u16) -> Option<PathMotionType> {
        match word {
            0x00 => Some(PathMotionType::NoAction),
            0x01 => Some(PathMotionType::PositionPositioning),
            0x02 => Some(PathMotionType::VelocityMovement),
            0x03 => Some(PathMotionType::Homing),
            _ => None,
        }
    }

    pub fn encode(self) -> (word: u16)
        ensures
            word == self.wire_word(),
    {
        match self {
            PathMotionType::NoAction => 0x00,
            PathMotionType::PositionPositioning => 0x01,
            PathMotionType::VelocityMovement => 0x02,
            PathMotionType::Homing => 0x03,
        }
    }

    pub fn decode(word: u16) -> (r: Option<PathMotionType>)
        ensures
            r == Self::spec_decode(word),
    {
        match word {
            0x00 => Some(PathMotionType::NoAction),
            0x01 => Some(PathMotionType::PositionPositioning),
            0x02 => Some(PathMotionType::VelocityMovement),
            0x03 => Some(PathMotionType::Homing),
            _ => None,
        }
    }
}

/// Encoding a motion type and decoding the word gives it back.
pub proof fn lemma_path_motion_type_round_trip(v: PathMotionType)
    ensures
        PathMotionType::spec_decode(v.wire_word()) == Some(v),
{
}

/// Current alarm flags: one fetched register word, read as six independent
/// fault conditions.
#[derive(Debug, Clone, Copy, PartialEq, Eq, Structural)]
pub struct CurrentAlarm(pub u16);

impl CurrentAlarm {
    pub const OVER_CURRENT: u16 = 0x01;
    pub const OVER_VOLTAGE: u16 = 0x02;
    pub const CURRENT_SAMPLING_FAULT: u16 = 0x40;
    pub const FAILED_LOCK_SHAFT: u16 = 0x80;
    pub const EEPROM_FAULT: u16 = 0x200;
    pub const AUTOTUNING_FAULT: u16 = 0x100;

    pub open spec fn spec_has_over_current(self) -> bool {
        self.0 & Self::OVER_CURRENT != 0
    }

    pub open spec fn spec_has_over_voltage(self) -> bool {
        self.0 & Self::OVER_VOLTAGE != 0
    }

    pub open spec fn spec_has_current_sampling_fault(self) -> bool {
        self.0 & Self::CURRENT_SAMPLING_FAULT != 0
    }

    pub open spec fn spec_has_failed_lock_shaft(self) -> bool {
        self.0 & Self::FAILED_LOCK_SHAFT != 0
    }

    pub open spec fn spec_has_eeprom_fault(self) -> bool {
        self.0 & Self::EEPROM_FAULT != 0
    }

    pub open spec fn spec_has_autotuning_fault(self) -> bool {
        self.0 & Self::AUTOTUNING_FAULT != 0
    }

    pub fn has_over_current(&self) -> (r: bool)
        ensures
            r == self.spec_has_over_current(),
    {
        self.0 & Self::OVER_CURRENT != 0
    }

    pub fn has_over_voltage(&self) -> (r: bool)
        ensures
            r == self.spec_has_over_voltage(),
    {
        self.0 & Self::OVER_VOLTAGE != 0
    }

    pub fn has_current_sampling_fault(&self) -> (r: bool)
        ensures
            r == self.spec_has_current_sampling_fault(),
    {
        self.0 & Self::CURRENT_SAMPLING_FAULT != 0
    }

    pub fn has_failed_lock_shaft(&self) -> (r: bool)
        ensures
            r == self.spec_has_failed_lock_shaft(),
    {
        self.0 & Self::FAILED_LOCK_SHAFT != 0
    }

    pub fn has_eeprom_fault(&self) -> (r: bool)
        ensures
            r == self.spec_has_eeprom_fault(),
    {
        self.0 & Self::EEPROM_FAULT != 0
    }

    pub fn has_autotuning_fault(&self) -> (r: bool)
        ensures
            r == self.spec_has_autotuning_fault(),
    {
        self.0 & Self::AUTOTUNING_FAULT != 0
    }
}

/// Motion status flags: one fetched register word, read as six independent
/// boolean conditions.
#[derive(Debug, Clone, Copy, PartialEq, Eq, Structural)]
pub struct MotionStatus(pub u16);

impl MotionStatus {
    pub open spec fn spec_is_fault(self) -> bool {
        self.0 & MS_FAULT != 0
    }

    pub open spec fn spec_is_enabled(self) -> bool {
        self.0 & MS_ENABLE != 0
    }

    pub open spec fn spec_is_running(self) -> bool {
        self.0 & MS_RUNNING != 0
    }

    pub open spec fn spec_is_cmd_complete(self) -> bool {
        self.0 & MS_CMD_COMPLETE != 0
    }

    pub open spec fn spec_is_path_complete(self) -> bool {
        self.0 & MS_PATH_COMPLETE != 0
    }

    pub open spec fn spec_is_homing_complete(self) -> bool {
        self.0 & MS_HOMING_COMPLETE != 0
    }

    pub fn is_fault(&self) -> (r: bool)
        ensures
            r == self.spec_is_fault(),
    {
        self.0 & MS_FAULT != 0
    }

    pub fn is_enabled(&self) -> (r: bool)
        ensures
            r == self.spec_is_enabled(),
    {
        self.0 & MS_ENABLE != 0
    }

    pub fn is_running(&self) -> (r: bool)
        ensures
            r == self.spec_is_running(),
    {
        self.0 & MS_RUNNING != 0
    }

    pub fn is_cmd_complete(&self) -> (r: bool)
        ensures
            r == self.spec_is_cmd_complete(),
    {
        self.0 & MS_CMD_COMPLETE != 0
    }

    pub fn is_path_complete(&self) -> (r: bool)
        ensures
            r == self.spec_is_path_complete(),
    {
        self.0 & MS_PATH_COMPLETE != 0
    }

    pub fn is_homing_complete(&self) -> (r: bool)
        ensures
            r == self.spec_is_homing_complete(),
    {
        self.0 & MS_HOMING_COMPLETE != 0
    }
}

/// The motion-status predicates are independent per bit: setting or
/// clearing any bits outside a predicate's own mask — in a synthetic word
/// as much as in a fetched one — never changes that predicate.
pub proof fn lemma_motion_status_bits_independent(word: u16, mask: u16)
    ensures
        mask & MS_FAULT == 0 ==> MotionStatus(word | mask).spec_is_fault() == MotionStatus(
            word,
        ).spec_is_fault() && MotionStatus(word & !mask).spec_is_fault() == MotionStatus(
            word,
        ).spec_is_fault(),
        mask & MS_ENABLE == 0 ==> MotionStatus(word | mask).spec_is_enabled() == MotionStatus(
            word,
        ).spec_is_enabled() && MotionStatus(word & !mask).spec_is_enabled() == MotionStatus(
            word,
        ).spec_is_enabled(),
        mask & MS_RUNNING == 0 ==> MotionStatus(word | mask).spec_is_running() == MotionStatus(
            word,
        ).spec_is_running() && MotionStatus(word & !mask).spec_is_running() == MotionStatus(
            word,
        ).spec_is_running(),
        mask & MS_CMD_COMPLETE == 0 ==> MotionStatus(word | mask).spec_is_cmd_complete()
            == MotionStatus(word).spec_is_cmd_complete() && MotionStatus(
            word & !mask,
        ).spec_is_cmd_complete() == MotionStatus(word).spec_is_cmd_complete(),
        mask & MS_PATH_COMPLETE == 0 ==> MotionStatus(word | mask).spec_is_path_complete()
            == MotionStatus(word).spec_is_path_complete() && MotionStatus(
            word & !mask,
        ).spec_is_path_complete() == MotionStatus(word).spec_is_path_complete(),
        mask & MS_HOMING_COMPLETE == 0 ==> MotionStatus(word | mask).spec_is_homing_complete()
            == MotionStatus(word).spec_is_homing_complete() && MotionStatus(
            word & !mask,
        ).spec_is_homing_complete() == MotionStatus(word).spec_is_homing_complete(),
{
    if mask & MS_FAULT == 0 {
        crate::codec::lemma_mask_insensitive(word, mask, MS_FAULT);
    }
    if mask & MS_ENABLE == 0 {
        crate::codec::lemma_mask_insensitive(word, mask, MS_ENABLE);
    }
    if mask & MS_RUNNING == 0 {
        crate::codec::lemma_mask_insensitive(word, mask, MS_RUNNING);
    }
    if mask & MS_CMD_COMPLETE == 0 {
        crate::codec::lemma_mask_insensitive(word, mask, MS_CMD_COMPLETE);
    }
    if mask & MS_PATH_COMPLETE == 0 {
        crate::codec::lemma_mask_insensitive(word, mask, MS_PATH_COMPLETE);
    }
    if mask & MS_HOMING_COMPLETE == 0 {
        crate::codec::lemma_mask_insensitive(word, mask, MS_HOMING_COMPLETE);
    }
}

/// The alarm predicates are independent per bit: setting or clearing any
/// bits outside a fault's own mask never changes that fault's predicate.
pub proof fn lemma_current_alarm_bits_independent(word: u16, mask: u16)
    ensures
        mask & CurrentAlarm::OVER_CURRENT == 0 ==> CurrentAlarm(
            word | mask,
        ).spec_has_over_current() == CurrentAlarm(word).spec_has_over_current() && CurrentAlarm(
            word & !mask,
        ).spec_has_over_current() == CurrentAlarm(word).spec_has_over_current(),
        mask & CurrentAlarm::OVER_VOLTAGE == 0 ==> CurrentAlarm(
            word | mask,
        ).spec_has_over_voltage() == CurrentAlarm(word).spec_has_over_voltage() && CurrentAlarm(
            word & !mask,
        ).spec_has_over_voltage() == CurrentAlarm(word).spec_has_over_voltage(),
        mask & CurrentAlarm::CURRENT_SAMPLING_FAULT == 0 ==> CurrentAlarm(
            word | mask,
        ).spec_has_current_sampling_fault() == CurrentAlarm(word).spec_has_current_sampling_fault()
            && CurrentAlarm(word & !mask).spec_has_current_sampling_fault() == CurrentAlarm(
            word,
        ).spec_has_current_sampling_fault(),
        mask & CurrentAlarm::FAILED_LOCK_SHAFT == 0 ==> CurrentAlarm(
            word | mask,
        ).spec_has_failed_lock_shaft() == CurrentAlarm(word).spec_has_failed_lock_shaft()
            && CurrentAlarm(word & !mask).spec_has_failed_lock_shaft() == CurrentAlarm(
            word,
        ).spec_has_failed_lock_shaft(),
        mask & CurrentAlarm::EEPROM_FAULT == 0 ==> CurrentAlarm(
            word | mask,
        ).spec_has_eeprom_fault() == CurrentAlarm(word).spec_has_eeprom_fault() && CurrentAlarm(
            word & !mask,
        ).spec_has_eeprom_fault() == CurrentAlarm(word).spec_has_eeprom_fault(),
        mask & CurrentAlarm::AUTOTUNING_FAULT == 0 ==> CurrentAlarm(
            word | mask,
        ).spec_has_autotuning_fault() == CurrentAlarm(word).spec_has_autotuning_fault()
            && CurrentAlarm(word & !mask).spec_has_autotuning_fault() == CurrentAlarm(
            word,
        ).spec_has_autotuning_fault(),
{
    if mask & CurrentAlarm::OVER_CURRENT == 0 {
        crate::codec::lemma_mask_insensitive(word, mask, CurrentAlarm::OVER_CURRENT);
    }
    if mask & CurrentAlarm::OVER_VOLTAGE == 0 {
        crate::codec::lemma_mask_insensitive(word, mask, CurrentAlarm::OVER_VOLTAGE);
    }
    if mask & CurrentAlarm::CURRENT_SAMPLING_FAULT == 0 {
        crate::codec::lemma_mask_insensitive(word, mask, CurrentAlarm::CURRENT_SAMPLING_FAULT);
    }
    if mask & CurrentAlarm::FAILED_LOCK_SHAFT == 0 {
        crate::codec::lemma_mask_insensitive(word, mask, CurrentAlarm::FAILED_LOCK_SHAFT);
    }
    if mask & CurrentAlarm::EEPROM_FAULT == 0 {
        crate::codec::lemma_mask_insensitive(word, mask, CurrentAlarm::EEPROM_FAULT);
    }
    if mask & CurrentAlarm::AUTOTUNING_FAULT == 0 {
        crate::codec::lemma_mask_insensitive(word, mask, CurrentAlarm::AUTOTUNING_FAULT);
    }
}

/// Homing configuration.
#[derive(Debug, Clone)]
pub struct HomingConfig {
    /// Triggering digital input number; must be 1 through 7 for the
    /// configuration to be applicable.
    pub input_no: u8,
    pub function: DigitalInputFunction,
    pub normally_closed: bool,
    pub direction: Direction,
    pub move_to_pos_after: bool,
    pub method: HomingMethod,
    pub position: u32,
    pub position_stop: u32,
    pub high_velocity: u16,
    pub low_velocity: u16,
    pub acceleration: u16,
    pub deceleration: u16,
}

impl Default for HomingConfig {
    fn default() -> (r: Self)
        ensures
            r.input_no == 1,
            r.function == DigitalInputFunction::Org,
            !r.normally_closed,
            r.direction == Direction::Clockwise,
            r.move_to_pos_after,
            r.method == HomingMethod::HomeSwitch,
            r.position == 0,
            r.position_stop == 0,
            r.high_velocity == 100,
            r.low_velocity == 50,
            r.acceleration == 100,
            r.deceleration == 100,
    {
        HomingConfig {
            input_no: 1,
            function: DigitalInputFunction::Org,
            normally_closed: false,
            direction: Direction::Clockwise,
            move_to_pos_after: true,
            method: HomingMethod::HomeSwitch,
            position: 0,
            position_stop: 0,
            high_velocity: 100,
            low_velocity: 50,
            acceleration: 100,
            deceleration: 100,
        }
    }
}

/// Path configuration: one record per path slot, applied as one ordered
/// write sequence.
#[derive(Debug, Clone)]
pub struct PathConfig {
    /// Path slot id; the constructor enforces 0 through 8.
    pub path_id: u8,
    pub absolute_position: bool,
    pub position: u32,
    pub velocity: u16,
    pub acceleration: u16,
    pub deceleration: u16,
    pub pause_time: u16,
}

impl PathConfig {
    /// Build a configuration for path slot `path_id` with default motion
    /// parameters. An id above 8 is rejected before any I/O can happen.
    pub fn new(path_id: u8) -> (r: Result<Self, Em2rsError>)
        ensures
            path_id > 8 ==> r == Err::<Self, Em2rsError>(Em2rsError::InvalidPath(path_id)),
            path_id <= 8 ==> (r matches Ok(c) && c.path_id == path_id && c.absolute_position
                && c.position == 0 && c.velocity == 100 && c.acceleration == 100
                && c.deceleration == 100 && c.pause_time == 0),
    {
        if path_id > 8 {
            return Err(Em2rsError::InvalidPath(path_id));
        }
        Ok(PathConfig {
            path_id,
            absolute_position: true,
            position: 0,
            velocity: 100,
            acceleration: 100,
            deceleration: 100,
            pause_time: 0,
        })
    }
}

/// Stepper motor configuration.
///
/// The phase current is carried in milliamps, so that the peak-current
/// derivation is exact integer arithmetic.
#[derive(Debug, Clone)]
pub struct StepperConfig {
    pub slave_id: u8,
    pub pulse_per_rev: u16,
    pub direction: Direction,
    /// Phase current in milliamps (1000 is one amp).
    pub phase_current_ma: u16,
    /// Motor inductance; values above 10000 are clamped when written.
    pub inductance: u16,
}

impl StepperConfig {
    pub fn new(slave_id: u8, pulse_per_rev: u16) -> (r: Self)
        ensures
            r.slave_id == slave_id,
            r.pulse_per_rev == pulse_per_rev,
            r.direction == Direction::Clockwise,
            r.phase_current_ma == 1000,
            r.inductance == 1000,
    {
        StepperConfig {
            slave_id,
            pulse_per_rev,
            direction: Direction::Clockwise,
            phase_current_ma: 1000,
            inductance: 1000,
        }
    }

    /// Derive a configuration with the given phase current, in milliamps.
    pub fn with_phase_current(self, phase_current_ma: u16) -> (r: Self)
        ensures
            r == (StepperConfig { phase_current_ma, ..self }),
    {
        StepperConfig { phase_current_ma, ..self }
    }

    pub fn with_inductance(self, inductance: u16) -> (r: Self)
        ensures
            r == (StepperConfig { inductance, ..self }),
    {
        StepperConfig { inductance, ..self }
    }

    pub fn with_direction(self, direction: Direction) -> (r: Self)
        ensures
            r == (StepperConfig { direction, ..self }),
    {
        StepperConfig { direction, ..self }
    }
}

} // verus!
