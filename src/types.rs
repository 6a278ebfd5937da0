//! Error type, parameter enumerations and configuration structures.
use vstd::prelude::*;
use vstd::string::*;

verus! {

/// Declares `std::io::Error`, carried unchanged in [`DsyrsError::Modbus`]
/// when the serial link fails. Nothing in this library looks inside it.
#[verifier::external_type_specification]
#[verifier::external_body]
pub struct ExIoError(std::io::Error);

/// Declares `tokio_modbus::Error` (a protocol mismatch or a transport
/// failure reported by tokio-modbus), carried unchanged in
/// [`DsyrsError::ModbusProtocol`]. Nothing in this library looks inside it.
#[verifier::external_type_specification]
#[verifier::external_body]
pub struct ExModbusError(tokio_modbus::Error);

/// Declares `tokio_modbus::ExceptionCode` (the negative acknowledgement of
/// a device), carried unchanged in [`DsyrsError::ModbusException`]. Nothing
/// in this library looks inside it.
#[verifier::external_type_specification]
#[verifier::external_body]
pub struct ExExceptionCode(tokio_modbus::ExceptionCode);

/// Error types for DSY-RS operations
#[derive(Debug)]
pub enum DsyrsError {
    /// Modbus communication error
    Modbus(std::io::Error),
    /// Modbus protocol error
    ModbusProtocol(tokio_modbus::Error),
    /// Modbus exception reported by the device
    ModbusException(tokio_modbus::ExceptionCode),
    /// Invalid parameter
    InvalidParameter(String),
    /// A raw register value that no variant of the expected enumeration has
    InvalidRawValue(u16),
    /// Invalid segment ID (must be 1-16)
    InvalidSegment(u8),
    /// Invalid digital input (must be 1-3)
    InvalidDigitalInput(u8),
    /// Invalid digital output (must be 1-2)
    InvalidDigitalOutput(u8),
    /// Operation failed
    OperationFailed(String),
    /// Servo not ready
    ServoNotReady,
    /// Timeout waiting for operation
    Timeout,
    /// I/O error
    IoError(String),
    /// Serial port error
    SerialError(String),
}

/// Result type of this library.
pub type Result<T> = core::result::Result<T, DsyrsError>;

/// A parameter enumeration with an explicit raw register encoding.
///
/// Encoding is total; decoding is partial and yields `None` exactly for the
/// raw values that no variant encodes to.
pub trait RegisterEnum: Sized {
    /// The raw register value of a variant.
    spec fn spec_raw(self) -> u16;

    /// The variant a raw register value stands for, if any.
    spec fn spec_decode(raw: u16) -> Option<Self>;

    /// Decoding an encoded variant gives the variant back.
    proof fn lemma_decode_raw(self)
        ensures
            Self::spec_decode(self.spec_raw()) == Some(self),
    ;

    /// A decoded variant encodes back to the raw value it came from.
    proof fn lemma_raw_decode(raw: u16)
        ensures
            Self::spec_decode(raw) matches Some(v) ==> v.spec_raw() == raw,
    ;

    /// Encode a variant as its raw register value.
    fn to_raw(self) -> (r: u16)
        ensures
            r == self.spec_raw(),
    ;

    /// Decode a raw register value.
    fn from_raw(raw: u16) -> (r: Option<Self>)
        ensures
            r == Self::spec_decode(raw),
    ;
}

/// Enumeration codec law: decoding the encoding of any variant gives that
/// variant back, and decoding a raw value finds nothing exactly when no
/// variant encodes to it.
pub proof fn lemma_register_enum_codec<E: RegisterEnum>(v: E, raw: u16)
    ensures
        E::spec_decode(v.spec_raw()) == Some(v),
        E::spec_decode(raw) is None <==> forall|w: E| #[trigger] w.spec_raw() != raw,
        E::spec_decode(raw) matches Some(w) ==> w.spec_raw() == raw,
{
    v.lemma_decode_raw();
    E::lemma_raw_decode(raw);
    if E::spec_decode(raw) is None {
        assert forall|w: E| #[trigger] w.spec_raw() != raw by {
            w.lemma_decode_raw();
        }
    }
}

/// Control mode selection (P00.00)
#[derive(Debug, Clone, Copy, PartialEq, Eq, Default)]
pub enum ControlMode {
    /// Position control mode
    #[default]
    Position,
    /// Speed control mode
    Speed,
    /// Torque control mode
    Torque,
}

impl RegisterEnum for ControlMode {
    open spec fn spec_raw(self) -> u16 {
        match self {
            ControlMode::Position => 0,
            ControlMode::Speed => 1,
            ControlMode::Torque => 2,
        }
    }

    open spec fn spec_decode(raw: u16) -> Option<Self> {
        match raw {
            0 => Some(ControlMode::Position),
            1 => Some(ControlMode::Speed),
            2 => Some(ControlMode::Torque),
            _ => None,
        }
    }

    proof fn lemma_decode_raw(self) {
    }

    proof fn lemma_raw_decode(raw: u16) {
    }

    fn to_raw(self) -> (r: u16) {
        match self {
            ControlMode::Position => 0,
            ControlMode::Speed => 1,
            ControlMode::Torque => 2,
        }
    }

    fn from_raw(raw: u16) -> (r: Option<Self>) {
        match raw {
            0 => Some(ControlMode::Position),
            1 => Some(ControlMode::Speed),
            2 => Some(ControlMode::Torque),
            _ => None,
        }
    }
}

impl TryFrom<u16> for ControlMode {
    type Error = DsyrsError;

    fn try_from(value: u16) -> (r: Result<Self>)
        ensures
            r == control_mode_try_from(value),
    {
        match ControlMode::from_raw(value) {
            Some(mode) => Ok(mode),
            None => Err(DsyrsError::InvalidRawValue(value)),
        }
    }
}

/// The control mode a raw register value stands for, or the decode error
/// that carries the value.
pub open spec fn control_mode_try_from(value: u16) -> Result<ControlMode> {
    match ControlMode::spec_decode(value) {
        Some(mode) => Ok(mode),
        None => Err(DsyrsError::InvalidRawValue(value)),
    }
}

impl vstd::std_specs::convert::TryFromSpecImpl<u16> for ControlMode {
    open spec fn obeys_try_from_spec() -> bool {
        true
    }

    open spec fn try_from_spec(v: u16) -> Result<Self> {
        control_mode_try_from(v)
    }
}

/// Motor rotation direction (P00.01)
#[derive(Debug, Clone, Copy, PartialEq, Eq, Default)]
pub enum Direction {
    /// Counter-clockwise is forward
    #[default]
    CcwForward,
    /// Clockwise is forward
    CwForward,
}

impl RegisterEnum for Direction {
    open spec fn spec_raw(self) -> u16 {
        match self {
            Direction::CcwForward => 0,
            Direction::CwForward => 1,
        }
    }

    open spec fn spec_decode(raw: u16) -> Option<Self> {
        match raw {
            0 => Some(Direction::CcwForward),
            1 => Some(Direction::CwForward),
            _ => None,
        }
    }

    proof fn lemma_decode_raw(self) {
    }

    proof fn lemma_raw_decode(raw: u16) {
    }

    fn to_raw(self) -> (r: u16) {
        match self {
            Direction::CcwForward => 0,
            Direction::CwForward => 1,
        }
    }

    fn from_raw(raw: u16) -> (r: Option<Self>) {
        match raw {
            0 => Some(Direction::CcwForward),
            1 => Some(Direction::CwForward),
            _ => None,
        }
    }
}

/// Absolute value system selection (P00.06)
#[derive(Debug, Clone, Copy, PartialEq, Eq, Default)]
pub enum AbsoluteSystem {
    /// Incremental position
    #[default]
    Incremental,
    /// Absolute position (linear)
    AbsoluteLinear,
    /// Absolute position (rotation)
    AbsoluteRotation,
}

impl RegisterEnum for AbsoluteSystem {
    open spec fn spec_raw(self) -> u16 {
        match self {
            AbsoluteSystem::Incremental => 0,
            AbsoluteSystem::AbsoluteLinear => 1,
            AbsoluteSystem::AbsoluteRotation => 2,
        }
    }

    open spec fn spec_decode(raw: u16) -> Option<Self> {
        match raw {
            0 => Some(AbsoluteSystem::Incremental),
            1 => Some(AbsoluteSystem::AbsoluteLinear),
            2 => Some(AbsoluteSystem::AbsoluteRotation),
            _ => None,
        }
    }

    proof fn lemma_decode_raw(self) {
    }

    proof fn lemma_raw_decode(raw: u16) {
    }

    fn to_raw(self) -> (r: u16) {
        match self {
            AbsoluteSystem::Incremental => 0,
            AbsoluteSystem::AbsoluteLinear => 1,
            AbsoluteSystem::AbsoluteRotation => 2,
        }
    }

    fn from_raw(raw: u16) -> (r: Option<Self>) {
        match raw {
            0 => Some(AbsoluteSystem::Incremental),
            1 => Some(AbsoluteSystem::AbsoluteLinear),
            2 => Some(AbsoluteSystem::AbsoluteRotation),
            _ => None,
        }
    }
}

/// Servo OFF stop mode (P00.10)
#[derive(Debug, Clone, Copy, PartialEq, Eq, Default)]
pub enum ServoOffStopMode {
    /// Freewheel stop
    Freewheel,
    /// Stop at zero speed (deceleration by P05.06)
    #[default]
    ZeroSpeed,
}

impl RegisterEnum for ServoOffStopMode {
    open spec fn spec_raw(self) -> u16 {
        match self {
            ServoOffStopMode::Freewheel => 0,
            ServoOffStopMode::ZeroSpeed => 1,
        }
    }

    open spec fn spec_decode(raw: u16) -> Option<Self> {
        match raw {
            0 => Some(ServoOffStopMode::Freewheel),
            1 => Some(ServoOffStopMode::ZeroSpeed),
            _ => None,
        }
    }

    proof fn lemma_decode_raw(self) {
    }

    proof fn lemma_raw_decode(raw: u16) {
    }

    fn to_raw(self) -> (r: u16) {
        match self {
            ServoOffStopMode::Freewheel => 0,
            ServoOffStopMode::ZeroSpeed => 1,
        }
    }

    fn from_raw(raw: u16) -> (r: Option<Self>) {
        match raw {
            0 => Some(ServoOffStopMode::Freewheel),
            1 => Some(ServoOffStopMode::ZeroSpeed),
            _ => None,
        }
    }
}

/// Overtravel stop mode (P00.13)
#[derive(Debug, Clone, Copy, PartialEq, Eq, Default)]
pub enum OvertravelStopMode {
    /// Freewheel
    Freewheel,
    /// Decelerate then servo-lock
    #[default]
    DecelThenLock,
    /// Decelerate then freewheel
    DecelThenFreewheel,
}

impl RegisterEnum for OvertravelStopMode {
    open spec fn spec_raw(self) -> u16 {
        match self {
            OvertravelStopMode::Freewheel => 0,
            OvertravelStopMode::DecelThenLock => 1,
            OvertravelStopMode::DecelThenFreewheel => 2,
        }
    }

    open spec fn spec_decode(raw: u16) -> Option<Self> {
        match raw {
            0 => Some(OvertravelStopMode::Freewheel),
            1 => Some(OvertravelStopMode::DecelThenLock),
            2 => Some(OvertravelStopMode::DecelThenFreewheel),
            _ => None,
        }
    }

    proof fn lemma_decode_raw(self) {
    }

    proof fn lemma_raw_decode(raw: u16) {
    }

    fn to_raw(self) -> (r: u16) {
        match self {
            OvertravelStopMode::Freewheel => 0,
            OvertravelStopMode::DecelThenLock => 1,
            OvertravelStopMode::DecelThenFreewheel => 2,
        }
    }

    fn from_raw(raw: u16) -> (r: Option<Self>) {
        match raw {
            0 => Some(OvertravelStopMode::Freewheel),
            1 => Some(OvertravelStopMode::DecelThenLock),
            2 => Some(OvertravelStopMode::DecelThenFreewheel),
            _ => None,
        }
    }
}

/// Energy consumption resistor setting (P00.18)
#[derive(Debug, Clone, Copy, PartialEq, Eq, Default)]
pub enum EnergyResistor {
    /// Built-in resistor
    #[default]
    BuiltIn,
    /// External, natural cooling
    ExternalNatural,
    /// External, forced air cooling
    ExternalForced,
    /// None (capacitance absorption)
    NoResistor,
}

impl RegisterEnum for EnergyResistor {
    open spec fn spec_raw(self) -> u16 {
        match self {
            EnergyResistor::BuiltIn => 0,
            EnergyResistor::ExternalNatural => 1,
            EnergyResistor::ExternalForced => 2,
            EnergyResistor::NoResistor => 3,
        }
    }

    open spec fn spec_decode(raw: u16) -> Option<Self> {
        match raw {
            0 => Some(EnergyResistor::BuiltIn),
            1 => Some(EnergyResistor::ExternalNatural),
            2 => Some(EnergyResistor::ExternalForced),
            3 => Some(EnergyResistor::NoResistor),
            _ => None,
        }
    }

    proof fn lemma_decode_raw(self) {
    }

    proof fn lemma_raw_decode(raw: u16) {
    }

    fn to_raw(self) -> (r: u16) {
        match self {
            EnergyResistor::BuiltIn => 0,
            EnergyResistor::ExternalNatural => 1,
            EnergyResistor::ExternalForced => 2,
            EnergyResistor::NoResistor => 3,
        }
    }

    fn from_raw(raw: u16) -> (r: Option<Self>) {
        match raw {
            0 => Some(EnergyResistor::BuiltIn),
            1 => Some(EnergyResistor::ExternalNatural),
            2 => Some(EnergyResistor::ExternalForced),
            3 => Some(EnergyResistor::NoResistor),
            _ => None,
        }
    }
}

/// Encoder selection (P01.18)
#[derive(Debug, Clone, Copy, PartialEq, Eq, Default)]
pub enum EncoderType {
    /// 2500-line encoder
    Line2500,
    /// 17-bit incremental encoder
    #[default]
    Bit17Incremental,
    /// 17-bit absolute encoder
    Bit17Absolute,
    /// 23-bit incremental encoder
    Bit23Incremental,
    /// 23-bit absolute encoder
    Bit23Absolute,
}

impl RegisterEnum for EncoderType {
    open spec fn spec_raw(self) -> u16 {
        match self {
            EncoderType::Line2500 => 0,
            EncoderType::Bit17Incremental => 1,
            EncoderType::Bit17Absolute => 2,
            EncoderType::Bit23Incremental => 3,
            EncoderType::Bit23Absolute => 4,
        }
    }

    open spec fn spec_decode(raw: u16) -> Option<Self> {
        match raw {
            0 => Some(EncoderType::Line2500),
            1 => Some(EncoderType::Bit17Incremental),
            2 => Some(EncoderType::Bit17Absolute),
            3 => Some(EncoderType::Bit23Incremental),
            4 => Some(EncoderType::Bit23Absolute),
            _ => None,
        }
    }

    proof fn lemma_decode_raw(self) {
    }

    proof fn lemma_raw_decode(raw: u16) {
    }

    fn to_raw(self) -> (r: u16) {
        match self {
            EncoderType::Line2500 => 0,
            EncoderType::Bit17Incremental => 1,
            EncoderType::Bit17Absolute => 2,
            EncoderType::Bit23Incremental => 3,
            EncoderType::Bit23Absolute => 4,
        }
    }

    fn from_raw(raw: u16) -> (r: Option<Self>) {
        match raw {
            0 => Some(EncoderType::Line2500),
            1 => Some(EncoderType::Bit17Incremental),
            2 => Some(EncoderType::Bit17Absolute),
            3 => Some(EncoderType::Bit23Incremental),
            4 => Some(EncoderType::Bit23Absolute),
            _ => None,
        }
    }
}

/// Digital input function selection (P02.01-P02.03)
/// Values 1-45 correspond to FunIN.1-45
#[derive(Debug, Clone, Copy, PartialEq, Eq, Default)]
pub enum DiFunction {
    /// No function assigned
    #[default]
    Unassigned,
    /// Servo enable (FunIN.1)
    ServoEnable,
    /// Alarm reset signal (edge valid function) (FunIN.2)
    AlarmResetSignal,
    /// Proportional action switching/gain switching (FunIN.3)
    ProportionalActionSwitch,
    /// Main/auxiliary running command switching (FunIN.4)
    MainAuxiliaryCommandSwitch,
    /// Pulse deviation clearing (FunIN.5)
    PulseDeviationClear,
    /// Multi-segment running command switch CMD1 (FunIN.6)
    MultiSegCommandSwitch1,
    /// Multi-segment running command switch CMD2 (FunIN.7)
    MultiSegCommandSwitch2,
    /// Multi-segment running command switch CMD3 (FunIN.8)
    MultiSegCommandSwitch3,
    /// Multi-segment running command switch CMD4 (FunIN.9)
    MultiSegCommandSwitch4,
    /// P-Mode switching (FunIN.10)
    PModeSwitch,
    /// Zero fixed function enable signal (FunIN.11)
    ZeroFixedEnable,
    /// Pulse prohibition (FunIN.12)
    PulseProhibition,
    /// Forward overtravel (FunIN.13)
    ForwardOvertravel,
    /// Backward overtravel (FunIN.14)
    BackwardOvertravel,
    /// Forward external torque limit ON (FunIN.15)
    ForwardExternalTorqueLimit,
    /// Backward external torque limit ON (FunIN.16)
    BackwardExternalTorqueLimit,
    /// Forward jog (FunIN.17)
    ForwardJog2,
    /// Backward jog (FunIN.18)
    BackwardJog,
    /// Position step input DI variable (FunIN.19)
    PositionStepInputDI,
    /// Handwheel magnification signal 1 (reserved) (FunIN.20)
    HandwheelMagnification1,
    /// Handwheel magnification signal 2 (reserved) (FunIN.21)
    HandwheelMagnification2,
    /// Handwheel enable signal (reserved) (FunIN.22)
    HandwheelEnable,
    /// Electronic gear selection (FunIN.23)
    ElectronicGearSelection,
    /// Position instruction reverse (FunIN.24)
    PositionInstructionReverse,
    /// Speed command reverse (FunIN.25)
    SpeedCommandReverse,
    /// Torque command reverse (FunIN.26)
    TorqueCommandReverse,
    /// Handwheel A signal (reserved) (FunIN.27)
    HandwheelSignalA,
    /// Handwheel B signal (reserved) (FunIN.28)
    HandwheelSignalB,
    /// Internal multi-segment position enable signal (FunIN.29)
    InternalMultiSegmentPositionEnable,
    /// Interrupt fixed length completion external confirmation signal (FunIN.30)
    InterruptFixedLengthCompletionExtConfirm,
    /// Interrupt fixed length prohibition (FunIN.31)
    InterruptFixedLengthProhibition,
    /// Home switch signal (FunIN.32)
    HomeSwitchSignal,
    /// Homing enable signal (FunIN.33)
    HomingEnableSignal,
    /// Emergency stop (FunIN.34)
    EmergencyStop,
    /// Position loop constant speed running (FunIN.35)
    PositionLoopConstantSpeedRunning,
    /// Interrupt fixed length reset (FunIN.36)
    InterruptFixedLengthReset,
    /// Interrupt fixed length operation pause (FunIN.37)
    InterruptFixedLengthOperationPause,
    /// Multi-segment torque running command switching 1 (FunIN.38)
    MultiSegmentTorqueCommandSwitch1,
    /// Multi-step torque running command switching 1 (FunIN.39)
    MultiStepTorqueCommandSwitch1,
    /// Speed Mode A1 command direction switching 1 (reserved) (FunIN.40)
    SpeedModeA1SW1,
    /// Speed Mode A1 command direction switching 2 (reserved) (FunIN.41)
    SpeedModeA1SW2,
}

impl RegisterEnum for DiFunction {
    open spec fn spec_raw(self) -> u16 {
        match self {
            DiFunction::Unassigned => 0,
            DiFunction::ServoEnable => 1,
            DiFunction::AlarmResetSignal => 2,
            DiFunction::ProportionalActionSwitch => 3,
            DiFunction::MainAuxiliaryCommandSwitch => 4,
            DiFunction::PulseDeviationClear => 5,
            DiFunction::MultiSegCommandSwitch1 => 6,
            DiFunction::MultiSegCommandSwitch2 => 7,
            DiFunction::MultiSegCommandSwitch3 => 8,
            DiFunction::MultiSegCommandSwitch4 => 9,
            DiFunction::PModeSwitch => 10,
            DiFunction::ZeroFixedEnable => 11,
            DiFunction::PulseProhibition => 12,
            DiFunction::ForwardOvertravel => 13,
            DiFunction::BackwardOvertravel => 14,
            DiFunction::ForwardExternalTorqueLimit => 15,
            DiFunction::BackwardExternalTorqueLimit => 16,
            DiFunction::ForwardJog2 => 17,
            DiFunction::BackwardJog => 18,
            DiFunction::PositionStepInputDI => 19,
            DiFunction::HandwheelMagnification1 => 20,
            DiFunction::HandwheelMagnification2 => 21,
            DiFunction::HandwheelEnable => 22,
            DiFunction::ElectronicGearSelection => 23,
            DiFunction::PositionInstructionReverse => 24,
            DiFunction::SpeedCommandReverse => 25,
            DiFunction::TorqueCommandReverse => 26,
            DiFunction::HandwheelSignalA => 27,
            DiFunction::HandwheelSignalB => 28,
            DiFunction::InternalMultiSegmentPositionEnable => 29,
            DiFunction::InterruptFixedLengthCompletionExtConfirm => 30,
            DiFunction::InterruptFixedLengthProhibition => 31,
            DiFunction::HomeSwitchSignal => 32,
            DiFunction::HomingEnableSignal => 33,
            DiFunction::EmergencyStop => 34,
            DiFunction::PositionLoopConstantSpeedRunning => 35,
            DiFunction::InterruptFixedLengthReset => 36,
            DiFunction::InterruptFixedLengthOperationPause => 37,
            DiFunction::MultiSegmentTorqueCommandSwitch1 => 38,
            DiFunction::MultiStepTorqueCommandSwitch1 => 39,
            DiFunction::SpeedModeA1SW1 => 40,
            DiFunction::SpeedModeA1SW2 => 41,
        }
    }

    open spec fn spec_decode(raw: u16) -> Option<Self> {
        match raw {
            0 => Some(DiFunction::Unassigned),
            1 => Some(DiFunction::ServoEnable),
            2 => Some(DiFunction::AlarmResetSignal),
            3 => Some(DiFunction::ProportionalActionSwitch),
            4 => Some(DiFunction::MainAuxiliaryCommandSwitch),
            5 => Some(DiFunction::PulseDeviationClear),
            6 => Some(DiFunction::MultiSegCommandSwitch1),
            7 => Some(DiFunction::MultiSegCommandSwitch2),
            8 => Some(DiFunction::MultiSegCommandSwitch3),
            9 => Some(DiFunction::MultiSegCommandSwitch4),
            10 => Some(DiFunction::PModeSwitch),
            11 => Some(DiFunction::ZeroFixedEnable),
            12 => Some(DiFunction::PulseProhibition),
            13 => Some(DiFunction::ForwardOvertravel),
            14 => Some(DiFunction::BackwardOvertravel),
            15 => Some(DiFunction::ForwardExternalTorqueLimit),
            16 => Some(DiFunction::BackwardExternalTorqueLimit),
            17 => Some(DiFunction::ForwardJog2),
            18 => Some(DiFunction::BackwardJog),
            19 => Some(DiFunction::PositionStepInputDI),
            20 => Some(DiFunction::HandwheelMagnification1),
            21 => Some(DiFunction::HandwheelMagnification2),
            22 => Some(DiFunction::HandwheelEnable),
            23 => Some(DiFunction::ElectronicGearSelection),
            24 => Some(DiFunction::PositionInstructionReverse),
            25 => Some(DiFunction::SpeedCommandReverse),
            26 => Some(DiFunction::TorqueCommandReverse),
            27 => Some(DiFunction::HandwheelSignalA),
            28 => Some(DiFunction::HandwheelSignalB),
            29 => Some(DiFunction::InternalMultiSegmentPositionEnable),
            30 => Some(DiFunction::InterruptFixedLengthCompletionExtConfirm),
            31 => Some(DiFunction::InterruptFixedLengthProhibition),
            32 => Some(DiFunction::HomeSwitchSignal),
            33 => Some(DiFunction::HomingEnableSignal),
            34 => Some(DiFunction::EmergencyStop),
            35 => Some(DiFunction::PositionLoopConstantSpeedRunning),
            36 => Some(DiFunction::InterruptFixedLengthReset),
            37 => Some(DiFunction::InterruptFixedLengthOperationPause),
            38 => Some(DiFunction::MultiSegmentTorqueCommandSwitch1),
            39 => Some(DiFunction::MultiStepTorqueCommandSwitch1),
            40 => Some(DiFunction::SpeedModeA1SW1),
            41 => Some(DiFunction::SpeedModeA1SW2),
            _ => None,
        }
    }

    proof fn lemma_decode_raw(self) {
    }

    proof fn lemma_raw_decode(raw: u16) {
    }

    fn to_raw(self) -> (r: u16) {
        match self {
            DiFunction::Unassigned => 0,
            DiFunction::ServoEnable => 1,
            DiFunction::AlarmResetSignal => 2,
            DiFunction::ProportionalActionSwitch => 3,
            DiFunction::MainAuxiliaryCommandSwitch => 4,
            DiFunction::PulseDeviationClear => 5,
            DiFunction::MultiSegCommandSwitch1 => 6,
            DiFunction::MultiSegCommandSwitch2 => 7,
            DiFunction::MultiSegCommandSwitch3 => 8,
            DiFunction::MultiSegCommandSwitch4 => 9,
            DiFunction::PModeSwitch => 10,
            DiFunction::ZeroFixedEnable => 11,
            DiFunction::PulseProhibition => 12,
            DiFunction::ForwardOvertravel => 13,
            DiFunction::BackwardOvertravel => 14,
            DiFunction::ForwardExternalTorqueLimit => 15,
            DiFunction::BackwardExternalTorqueLimit => 16,
            DiFunction::ForwardJog2 => 17,
            DiFunction::BackwardJog => 18,
            DiFunction::PositionStepInputDI => 19,
            DiFunction::HandwheelMagnification1 => 20,
            DiFunction::HandwheelMagnification2 => 21,
            DiFunction::HandwheelEnable => 22,
            DiFunction::ElectronicGearSelection => 23,
            DiFunction::PositionInstructionReverse => 24,
            DiFunction::SpeedCommandReverse => 25,
            DiFunction::TorqueCommandReverse => 26,
            DiFunction::HandwheelSignalA => 27,
            DiFunction::HandwheelSignalB => 28,
            DiFunction::InternalMultiSegmentPositionEnable => 29,
            DiFunction::InterruptFixedLengthCompletionExtConfirm => 30,
            DiFunction::InterruptFixedLengthProhibition => 31,
            DiFunction::HomeSwitchSignal => 32,
            DiFunction::HomingEnableSignal => 33,
            DiFunction::EmergencyStop => 34,
            DiFunction::PositionLoopConstantSpeedRunning => 35,
            DiFunction::InterruptFixedLengthReset => 36,
            DiFunction::InterruptFixedLengthOperationPause => 37,
            DiFunction::MultiSegmentTorqueCommandSwitch1 => 38,
            DiFunction::MultiStepTorqueCommandSwitch1 => 39,
            DiFunction::SpeedModeA1SW1 => 40,
            DiFunction::SpeedModeA1SW2 => 41,
        }
    }

    fn from_raw(raw: u16) -> (r: Option<Self>) {
        match raw {
            0 => Some(DiFunction::Unassigned),
            1 => Some(DiFunction::ServoEnable),
            2 => Some(DiFunction::AlarmResetSignal),
            3 => Some(DiFunction::ProportionalActionSwitch),
            4 => Some(DiFunction::MainAuxiliaryCommandSwitch),
            5 => Some(DiFunction::PulseDeviationClear),
            6 => Some(DiFunction::MultiSegCommandSwitch1),
            7 => Some(DiFunction::MultiSegCommandSwitch2),
            8 => Some(DiFunction::MultiSegCommandSwitch3),
            9 => Some(DiFunction::MultiSegCommandSwitch4),
            10 => Some(DiFunction::PModeSwitch),
            11 => Some(DiFunction::ZeroFixedEnable),
            12 => Some(DiFunction::PulseProhibition),
            13 => Some(DiFunction::ForwardOvertravel),
            14 => Some(DiFunction::BackwardOvertravel),
            15 => Some(DiFunction::ForwardExternalTorqueLimit),
            16 => Some(DiFunction::BackwardExternalTorqueLimit),
            17 => Some(DiFunction::ForwardJog2),
            18 => Some(DiFunction::BackwardJog),
            19 => Some(DiFunction::PositionStepInputDI),
            20 => Some(DiFunction::HandwheelMagnification1),
            21 => Some(DiFunction::HandwheelMagnification2),
            22 => Some(DiFunction::HandwheelEnable),
            23 => Some(DiFunction::ElectronicGearSelection),
            24 => Some(DiFunction::PositionInstructionReverse),
            25 => Some(DiFunction::SpeedCommandReverse),
            26 => Some(DiFunction::TorqueCommandReverse),
            27 => Some(DiFunction::HandwheelSignalA),
            28 => Some(DiFunction::HandwheelSignalB),
            29 => Some(DiFunction::InternalMultiSegmentPositionEnable),
            30 => Some(DiFunction::InterruptFixedLengthCompletionExtConfirm),
            31 => Some(DiFunction::InterruptFixedLengthProhibition),
            32 => Some(DiFunction::HomeSwitchSignal),
            33 => Some(DiFunction::HomingEnableSignal),
            34 => Some(DiFunction::EmergencyStop),
            35 => Some(DiFunction::PositionLoopConstantSpeedRunning),
            36 => Some(DiFunction::InterruptFixedLengthReset),
            37 => Some(DiFunction::InterruptFixedLengthOperationPause),
            38 => Some(DiFunction::MultiSegmentTorqueCommandSwitch1),
            39 => Some(DiFunction::MultiStepTorqueCommandSwitch1),
            40 => Some(DiFunction::SpeedModeA1SW1),
            41 => Some(DiFunction::SpeedModeA1SW2),
            _ => None,
        }
    }
}

/// Digital input logic selection (P02.11-P02.13)
#[derive(Debug, Clone, Copy, PartialEq, Eq, Default)]
pub enum DiLogic {
    /// Low level active
    #[default]
    LowActive,
    /// High level active
    HighActive,
    /// Rising edge triggered
    RisingEdge,
    /// Falling edge triggered
    FallingEdge,
    /// Both edges triggered
    BothEdges,
}

impl RegisterEnum for DiLogic {
    open spec fn spec_raw(self) -> u16 {
        match self {
            DiLogic::LowActive => 0,
            DiLogic::HighActive => 1,
            DiLogic::RisingEdge => 2,
            DiLogic::FallingEdge => 3,
            DiLogic::BothEdges => 4,
        }
    }

    open spec fn spec_decode(raw: u16) -> Option<Self> {
        match raw {
            0 => Some(DiLogic::LowActive),
            1 => Some(DiLogic::HighActive),
            2 => Some(DiLogic::RisingEdge),
            3 => Some(DiLogic::FallingEdge),
            4 => Some(DiLogic::BothEdges),
            _ => None,
        }
    }

    proof fn lemma_decode_raw(self) {
    }

    proof fn lemma_raw_decode(raw: u16) {
    }

    fn to_raw(self) -> (r: u16) {
        match self {
            DiLogic::LowActive => 0,
            DiLogic::HighActive => 1,
            DiLogic::RisingEdge => 2,
            DiLogic::FallingEdge => 3,
            DiLogic::BothEdges => 4,
        }
    }

    fn from_raw(raw: u16) -> (r: Option<Self>) {
        match raw {
            0 => Some(DiLogic::LowActive),
            1 => Some(DiLogic::HighActive),
            2 => Some(DiLogic::RisingEdge),
            3 => Some(DiLogic::FallingEdge),
            4 => Some(DiLogic::BothEdges),
            _ => None,
        }
    }
}

/// Digital output function selection (P02.21-P02.22)
/// Values 1-25 correspond to FunOUT.1-25
#[derive(Debug, Clone, Copy, PartialEq, Eq, Default)]
pub enum DoFunction {
    /// No function assigned
    #[default]
    Unassigned,
    /// Servo ready (FunOUT.1)
    ServoReady,
    /// Fault output signal (FunOUT.2)
    FaultOutputSignal,
    /// Warning output signal (FunOUT.3)
    WarningOutputSignal,
    /// Motor rotation output signal (FunOUT.4)
    MotorRotationOutputSignal,
    /// Zero speed signal (FunOUT.5)
    ZeroSpeedSignal,
    /// Speed consistent (FunOUT.6)
    SpeedConsistent,
    /// Position completed (FunOUT.7)
    PositionCompleted,
    /// Positioning approach signal (FunOUT.8)
    PositioningApproachSignal,
    /// Torque limit signal (FunOUT.9)
    TorqueLimitSignal,
    /// Speed limit signal (FunOUT.10)
    SpeedLimitSignal,
    /// Brake release signal output (FunOUT.11)
    BrakeReleaseSignalOutput,
    /// Torque feedback reaches specified range (FunOUT.12)
    TorqueFeedbackReachesRange,
    /// Speed feedback reaches specified range (FunOUT.13)
    SpeedFeedbackReachesRange,
    /// Angle recognition completed (FunOUT.14)
    AngleRecognitionCompleted,
    /// Output 3-bit alarm code (reserved) (FunOUT.15)
    OutputAlarmCode1,
    /// Output 3-bit alarm code (reserved) (FunOUT.16)
    OutputAlarmCode2,
    /// Output 3-bit alarm code (reserved) (FunOUT.17)
    OutputAlarmCode3,
    /// Interrupt fixed length completion signal (FunOUT.18)
    InterruptFixedLengthCompletionSignal,
    /// Homing completion signal (FunOUT.19)
    HomingCompletionSignal,
    /// Reserved (FunOUT.20)
    Reserved20,
    /// Multi-segment position completion command 1 output (FunOUT.21)
    MultiSegmentPositionCompletion1,
    /// Multi-segment position completion command 2 output (FunOUT.22)
    MultiSegmentPositionCompletion2,
    /// Multi-segment position completion command 3 output (FunOUT.23)
    MultiSegmentPositionCompletion3,
    /// Multi-segment position completion command 4 output (FunOUT.24)
    MultiSegmentPositionCompletion4,
}

impl RegisterEnum for DoFunction {
    open spec fn spec_raw(self) -> u16 {
        match self {
            DoFunction::Unassigned => 0,
            DoFunction::ServoReady => 1,
            DoFunction::FaultOutputSignal => 2,
            DoFunction::WarningOutputSignal => 3,
            DoFunction::MotorRotationOutputSignal => 4,
            DoFunction::ZeroSpeedSignal => 5,
            DoFunction::SpeedConsistent => 6,
            DoFunction::PositionCompleted => 7,
            DoFunction::PositioningApproachSignal => 8,
            DoFunction::TorqueLimitSignal => 9,
            DoFunction::SpeedLimitSignal => 10,
            DoFunction::BrakeReleaseSignalOutput => 11,
            DoFunction::TorqueFeedbackReachesRange => 12,
            DoFunction::SpeedFeedbackReachesRange => 13,
            DoFunction::AngleRecognitionCompleted => 14,
            DoFunction::OutputAlarmCode1 => 15,
            DoFunction::OutputAlarmCode2 => 16,
            DoFunction::OutputAlarmCode3 => 17,
            DoFunction::InterruptFixedLengthCompletionSignal => 18,
            DoFunction::HomingCompletionSignal => 19,
            DoFunction::Reserved20 => 20,
            DoFunction::MultiSegmentPositionCompletion1 => 21,
            DoFunction::MultiSegmentPositionCompletion2 => 22,
            DoFunction::MultiSegmentPositionCompletion3 => 23,
            DoFunction::MultiSegmentPositionCompletion4 => 24,
        }
    }

    open spec fn spec_decode(raw: u16) -> Option<Self> {
        match raw {
            0 => Some(DoFunction::Unassigned),
            1 => Some(DoFunction::ServoReady),
            2 => Some(DoFunction::FaultOutputSignal),
            3 => Some(DoFunction::WarningOutputSignal),
            4 => Some(DoFunction::MotorRotationOutputSignal),
            5 => Some(DoFunction::ZeroSpeedSignal),
            6 => Some(DoFunction::SpeedConsistent),
            7 => Some(DoFunction::PositionCompleted),
            8 => Some(DoFunction::PositioningApproachSignal),
            9 => Some(DoFunction::TorqueLimitSignal),
            10 => Some(DoFunction::SpeedLimitSignal),
            11 => Some(DoFunction::BrakeReleaseSignalOutput),
            12 => Some(DoFunction::TorqueFeedbackReachesRange),
            13 => Some(DoFunction::SpeedFeedbackReachesRange),
            14 => Some(DoFunction::AngleRecognitionCompleted),
            15 => Some(DoFunction::OutputAlarmCode1),
            16 => Some(DoFunction::OutputAlarmCode2),
            17 => Some(DoFunction::OutputAlarmCode3),
            18 => Some(DoFunction::InterruptFixedLengthCompletionSignal),
            19 => Some(DoFunction::HomingCompletionSignal),
            20 => Some(DoFunction::Reserved20),
            21 => Some(DoFunction::MultiSegmentPositionCompletion1),
            22 => Some(DoFunction::MultiSegmentPositionCompletion2),
            23 => Some(DoFunction::MultiSegmentPositionCompletion3),
            24 => Some(DoFunction::MultiSegmentPositionCompletion4),
            _ => None,
        }
    }

    proof fn lemma_decode_raw(self) {
    }

    proof fn lemma_raw_decode(raw: u16) {
    }

    fn to_raw(self) -> (r: u16) {
        match self {
            DoFunction::Unassigned => 0,
            DoFunction::ServoReady => 1,
            DoFunction::FaultOutputSignal => 2,
            DoFunction::WarningOutputSignal => 3,
            DoFunction::MotorRotationOutputSignal => 4,
            DoFunction::ZeroSpeedSignal => 5,
            DoFunction::SpeedConsistent => 6,
            DoFunction::PositionCompleted => 7,
            DoFunction::PositioningApproachSignal => 8,
            DoFunction::TorqueLimitSignal => 9,
            DoFunction::SpeedLimitSignal => 10,
            DoFunction::BrakeReleaseSignalOutput => 11,
            DoFunction::TorqueFeedbackReachesRange => 12,
            DoFunction::SpeedFeedbackReachesRange => 13,
            DoFunction::AngleRecognitionCompleted => 14,
            DoFunction::OutputAlarmCode1 => 15,
            DoFunction::OutputAlarmCode2 => 16,
            DoFunction::OutputAlarmCode3 => 17,
            DoFunction::InterruptFixedLengthCompletionSignal => 18,
            DoFunction::HomingCompletionSignal => 19,
            DoFunction::Reserved20 => 20,
            DoFunction::MultiSegmentPositionCompletion1 => 21,
            DoFunction::MultiSegmentPositionCompletion2 => 22,
            DoFunction::MultiSegmentPositionCompletion3 => 23,
            DoFunction::MultiSegmentPositionCompletion4 => 24,
        }
    }

    fn from_raw(raw: u16) -> (r: Option<Self>) {
        match raw {
            0 => Some(DoFunction::Unassigned),
            1 => Some(DoFunction::ServoReady),
            2 => Some(DoFunction::FaultOutputSignal),
            3 => Some(DoFunction::WarningOutputSignal),
            4 => Some(DoFunction::MotorRotationOutputSignal),
            5 => Some(DoFunction::ZeroSpeedSignal),
            6 => Some(DoFunction::SpeedConsistent),
            7 => Some(DoFunction::PositionCompleted),
            8 => Some(DoFunction::PositioningApproachSignal),
            9 => Some(DoFunction::TorqueLimitSignal),
            10 => Some(DoFunction::SpeedLimitSignal),
            11 => Some(DoFunction::BrakeReleaseSignalOutput),
            12 => Some(DoFunction::TorqueFeedbackReachesRange),
            13 => Some(DoFunction::SpeedFeedbackReachesRange),
            14 => Some(DoFunction::AngleRecognitionCompleted),
            15 => Some(DoFunction::OutputAlarmCode1),
            16 => Some(DoFunction::OutputAlarmCode2),
            17 => Some(DoFunction::OutputAlarmCode3),
            18 => Some(DoFunction::InterruptFixedLengthCompletionSignal),
            19 => Some(DoFunction::HomingCompletionSignal),
            20 => Some(DoFunction::Reserved20),
            21 => Some(DoFunction::MultiSegmentPositionCompletion1),
            22 => Some(DoFunction::MultiSegmentPositionCompletion2),
            23 => Some(DoFunction::MultiSegmentPositionCompletion3),
            24 => Some(DoFunction::MultiSegmentPositionCompletion4),
            _ => None,
        }
    }
}

/// Digital output logic (P02.31-P02.32)
#[derive(Debug, Clone, Copy, PartialEq, Eq, Default)]
pub enum DoLogic {
    /// Normally open (conduct when active)
    #[default]
    NormallyOpen,
    /// Normally closed (open when active)
    NormallyClosed,
}

impl RegisterEnum for DoLogic {
    open spec fn spec_raw(self) -> u16 {
        match self {
            DoLogic::NormallyOpen => 0,
            DoLogic::NormallyClosed => 1,
        }
    }

    open spec fn spec_decode(raw: u16) -> Option<Self> {
        match raw {
            0 => Some(DoLogic::NormallyOpen),
            1 => Some(DoLogic::NormallyClosed),
            _ => None,
        }
    }

    proof fn lemma_decode_raw(self) {
    }

    proof fn lemma_raw_decode(raw: u16) {
    }

    fn to_raw(self) -> (r: u16) {
        match self {
            DoLogic::NormallyOpen => 0,
            DoLogic::NormallyClosed => 1,
        }
    }

    fn from_raw(raw: u16) -> (r: Option<Self>) {
        match raw {
            0 => Some(DoLogic::NormallyOpen),
            1 => Some(DoLogic::NormallyClosed),
            _ => None,
        }
    }
}

/// Position command source (P04.00)
#[derive(Debug, Clone, Copy, PartialEq, Eq, Default)]
pub enum PositionCmdSource {
    /// Low-speed pulse input
    #[default]
    LowSpeedPulse,
    /// High-speed pulse input
    HighSpeedPulse,
    /// Step amount (P04.02)
    StepAmount,
    /// Multi-segment position
    MultiSegment,
    /// Communication command
    Communication,
}

impl RegisterEnum for PositionCmdSource {
    open spec fn spec_raw(self) -> u16 {
        match self {
            PositionCmdSource::LowSpeedPulse => 0,
            PositionCmdSource::HighSpeedPulse => 1,
            PositionCmdSource::StepAmount => 2,
            PositionCmdSource::MultiSegment => 4,
            PositionCmdSource::Communication => 5,
        }
    }

    open spec fn spec_decode(raw: u16) -> Option<Self> {
        match raw {
            0 => Some(PositionCmdSource::LowSpeedPulse),
            1 => Some(PositionCmdSource::HighSpeedPulse),
            2 => Some(PositionCmdSource::StepAmount),
            4 => Some(PositionCmdSource::MultiSegment),
            5 => Some(PositionCmdSource::Communication),
            _ => None,
        }
    }

    proof fn lemma_decode_raw(self) {
    }

    proof fn lemma_raw_decode(raw: u16) {
    }

    fn to_raw(self) -> (r: u16) {
        match self {
            PositionCmdSource::LowSpeedPulse => 0,
            PositionCmdSource::HighSpeedPulse => 1,
            PositionCmdSource::StepAmount => 2,
            PositionCmdSource::MultiSegment => 4,
            PositionCmdSource::Communication => 5,
        }
    }

    fn from_raw(raw: u16) -> (r: Option<Self>) {
        match raw {
            0 => Some(PositionCmdSource::LowSpeedPulse),
            1 => Some(PositionCmdSource::HighSpeedPulse),
            2 => Some(PositionCmdSource::StepAmount),
            4 => Some(PositionCmdSource::MultiSegment),
            5 => Some(PositionCmdSource::Communication),
            _ => None,
        }
    }
}

/// Pulse shape (P04.21)
#[derive(Debug, Clone, Copy, PartialEq, Eq, Default)]
pub enum PulseShape {
    /// Pulse + Direction, positive logic
    #[default]
    PulseDirPos,
    /// Direction + Pulse, negative logic
    DirPulseNeg,
    /// A/B quadrature, positive logic
    QuadPos,
    /// A/B quadrature, negative logic
    QuadNeg,
    /// CCW/CW pulse, positive logic
    CcwCwPos,
    /// CCW/CW pulse, negative logic
    CcwCwNeg,
}

impl RegisterEnum for PulseShape {
    open spec fn spec_raw(self) -> u16 {
        match self {
            PulseShape::PulseDirPos => 0,
            PulseShape::DirPulseNeg => 1,
            PulseShape::QuadPos => 2,
            PulseShape::QuadNeg => 3,
            PulseShape::CcwCwPos => 4,
            PulseShape::CcwCwNeg => 5,
        }
    }

    open spec fn spec_decode(raw: u16) -> Option<Self> {
        match raw {
            0 => Some(PulseShape::PulseDirPos),
            1 => Some(PulseShape::DirPulseNeg),
            2 => Some(PulseShape::QuadPos),
            3 => Some(PulseShape::QuadNeg),
            4 => Some(PulseShape::CcwCwPos),
            5 => Some(PulseShape::CcwCwNeg),
            _ => None,
        }
    }

    proof fn lemma_decode_raw(self) {
    }

    proof fn lemma_raw_decode(raw: u16) {
    }

    fn to_raw(self) -> (r: u16) {
        match self {
            PulseShape::PulseDirPos => 0,
            PulseShape::DirPulseNeg => 1,
            PulseShape::QuadPos => 2,
            PulseShape::QuadNeg => 3,
            PulseShape::CcwCwPos => 4,
            PulseShape::CcwCwNeg => 5,
        }
    }

    fn from_raw(raw: u16) -> (r: Option<Self>) {
        match raw {
            0 => Some(PulseShape::PulseDirPos),
            1 => Some(PulseShape::DirPulseNeg),
            2 => Some(PulseShape::QuadPos),
            3 => Some(PulseShape::QuadNeg),
            4 => Some(PulseShape::CcwCwPos),
            5 => Some(PulseShape::CcwCwNeg),
            _ => None,
        }
    }
}

/// Position deviation clear mode (P04.22)
#[derive(Debug, Clone, Copy, PartialEq, Eq, Default)]
pub enum DeviationClearMode {
    /// Clear on fault or servo OFF
    #[default]
    OnFaultOrOff,
    /// Clear only on fault
    OnFault,
    /// Clear by DI (PERR-CLR)
    ByDi,
}

impl RegisterEnum for DeviationClearMode {
    open spec fn spec_raw(self) -> u16 {
        match self {
            DeviationClearMode::OnFaultOrOff => 0,
            DeviationClearMode::OnFault => 1,
            DeviationClearMode::ByDi => 2,
        }
    }

    open spec fn spec_decode(raw: u16) -> Option<Self> {
        match raw {
            0 => Some(DeviationClearMode::OnFaultOrOff),
            1 => Some(DeviationClearMode::OnFault),
            2 => Some(DeviationClearMode::ByDi),
            _ => None,
        }
    }

    proof fn lemma_decode_raw(self) {
    }

    proof fn lemma_raw_decode(raw: u16) {
    }

    fn to_raw(self) -> (r: u16) {
        match self {
            DeviationClearMode::OnFaultOrOff => 0,
            DeviationClearMode::OnFault => 1,
            DeviationClearMode::ByDi => 2,
        }
    }

    fn from_raw(raw: u16) -> (r: Option<Self>) {
        match raw {
            0 => Some(DeviationClearMode::OnFaultOrOff),
            1 => Some(DeviationClearMode::OnFault),
            2 => Some(DeviationClearMode::ByDi),
            _ => None,
        }
    }
}

/// Modbus baud rate setting (P10.02)
#[derive(Debug, Clone, Copy, PartialEq, Eq, Default)]
pub enum BaudRate {
    /// 2400 bps
    Baud2400,
    /// 4800 bps
    Baud4800,
    /// 9600 bps
    Baud9600,
    /// 19200 bps
    Baud19200,
    /// 38400 bps
    Baud38400,
    /// 57600 bps
    Baud57600,
    /// 115200 bps
    #[default]
    Baud115200,
}

impl RegisterEnum for BaudRate {
    open spec fn spec_raw(self) -> u16 {
        match self {
            BaudRate::Baud2400 => 0,
            BaudRate::Baud4800 => 1,
            BaudRate::Baud9600 => 2,
            BaudRate::Baud19200 => 3,
            BaudRate::Baud38400 => 4,
            BaudRate::Baud57600 => 5,
            BaudRate::Baud115200 => 6,
        }
    }

    open spec fn spec_decode(raw: u16) -> Option<Self> {
        match raw {
            0 => Some(BaudRate::Baud2400),
            1 => Some(BaudRate::Baud4800),
            2 => Some(BaudRate::Baud9600),
            3 => Some(BaudRate::Baud19200),
            4 => Some(BaudRate::Baud38400),
            5 => Some(BaudRate::Baud57600),
            6 => Some(BaudRate::Baud115200),
            _ => None,
        }
    }

    proof fn lemma_decode_raw(self) {
    }

    proof fn lemma_raw_decode(raw: u16) {
    }

    fn to_raw(self) -> (r: u16) {
        match self {
            BaudRate::Baud2400 => 0,
            BaudRate::Baud4800 => 1,
            BaudRate::Baud9600 => 2,
            BaudRate::Baud19200 => 3,
            BaudRate::Baud38400 => 4,
            BaudRate::Baud57600 => 5,
            BaudRate::Baud115200 => 6,
        }
    }

    fn from_raw(raw: u16) -> (r: Option<Self>) {
        match raw {
            0 => Some(BaudRate::Baud2400),
            1 => Some(BaudRate::Baud4800),
            2 => Some(BaudRate::Baud9600),
            3 => Some(BaudRate::Baud19200),
            4 => Some(BaudRate::Baud38400),
            5 => Some(BaudRate::Baud57600),
            6 => Some(BaudRate::Baud115200),
            _ => None,
        }
    }
}

/// Modbus data format (P10.03)
#[derive(Debug, Clone, Copy, PartialEq, Eq, Default)]
pub enum DataFormat {
    /// No parity, 2 stop bits
    #[default]
    NoParity2Stop,
    /// Even parity, 1 stop bit
    EvenParity1Stop,
    /// Odd parity, 1 stop bit
    OddParity1Stop,
    /// No parity, 1 stop bit
    NoParity1Stop,
}

impl RegisterEnum for DataFormat {
    open spec fn spec_raw(self) -> u16 {
        match self {
            DataFormat::NoParity2Stop => 0,
            DataFormat::EvenParity1Stop => 1,
            DataFormat::OddParity1Stop => 2,
            DataFormat::NoParity1Stop => 3,
        }
    }

    open spec fn spec_decode(raw: u16) -> Option<Self> {
        match raw {
            0 => Some(DataFormat::NoParity2Stop),
            1 => Some(DataFormat::EvenParity1Stop),
            2 => Some(DataFormat::OddParity1Stop),
            3 => Some(DataFormat::NoParity1Stop),
            _ => None,
        }
    }

    proof fn lemma_decode_raw(self) {
    }

    proof fn lemma_raw_decode(raw: u16) {
    }

    fn to_raw(self) -> (r: u16) {
        match self {
            DataFormat::NoParity2Stop => 0,
            DataFormat::EvenParity1Stop => 1,
            DataFormat::OddParity1Stop => 2,
            DataFormat::NoParity1Stop => 3,
        }
    }

    fn from_raw(raw: u16) -> (r: Option<Self>) {
        match raw {
            0 => Some(DataFormat::NoParity2Stop),
            1 => Some(DataFormat::EvenParity1Stop),
            2 => Some(DataFormat::OddParity1Stop),
            3 => Some(DataFormat::NoParity1Stop),
            _ => None,
        }
    }
}

/// RS485 address source (P10.06)
#[derive(Debug, Clone, Copy, PartialEq, Eq, Default)]
pub enum AddressSource {
    /// Use DIP switch setting
    #[default]
    DipSwitch,
    /// Use host setting (P10.00)
    HostSetting,
}

impl RegisterEnum for AddressSource {
    open spec fn spec_raw(self) -> u16 {
        match self {
            AddressSource::DipSwitch => 0,
            AddressSource::HostSetting => 1,
        }
    }

    open spec fn spec_decode(raw: u16) -> Option<Self> {
        match raw {
            0 => Some(AddressSource::DipSwitch),
            1 => Some(AddressSource::HostSetting),
            _ => None,
        }
    }

    proof fn lemma_decode_raw(self) {
    }

    proof fn lemma_raw_decode(raw: u16) {
    }

    fn to_raw(self) -> (r: u16) {
        match self {
            AddressSource::DipSwitch => 0,
            AddressSource::HostSetting => 1,
        }
    }

    fn from_raw(raw: u16) -> (r: Option<Self>) {
        match raw {
            0 => Some(AddressSource::DipSwitch),
            1 => Some(AddressSource::HostSetting),
            _ => None,
        }
    }
}

/// System initialization command (P11.09)
#[derive(Debug, Clone, Copy, PartialEq, Eq, Default)]
pub enum SystemInit {
    /// No action
    #[default]
    NoAction,
    /// Factory reset (except P01 & P17)
    FactoryReset,
    /// Clear fault record
    ClearFaultRecord,
}

impl RegisterEnum for SystemInit {
    open spec fn spec_raw(self) -> u16 {
        match self {
            SystemInit::NoAction => 0,
            SystemInit::FactoryReset => 1,
            SystemInit::ClearFaultRecord => 2,
        }
    }

    open spec fn spec_decode(raw: u16) -> Option<Self> {
        match raw {
            0 => Some(SystemInit::NoAction),
            1 => Some(SystemInit::FactoryReset),
            2 => Some(SystemInit::ClearFaultRecord),
            _ => None,
        }
    }

    proof fn lemma_decode_raw(self) {
    }

    proof fn lemma_raw_decode(raw: u16) {
    }

    fn to_raw(self) -> (r: u16) {
        match self {
            SystemInit::NoAction => 0,
            SystemInit::FactoryReset => 1,
            SystemInit::ClearFaultRecord => 2,
        }
    }

    fn from_raw(raw: u16) -> (r: Option<Self>) {
        match raw {
            0 => Some(SystemInit::NoAction),
            1 => Some(SystemInit::FactoryReset),
            2 => Some(SystemInit::ClearFaultRecord),
            _ => None,
        }
    }
}

/// Absolute encoder reset command (P11.06)
#[derive(Debug, Clone, Copy, PartialEq, Eq, Default)]
pub enum EncoderReset {
    /// No action
    #[default]
    NoAction,
    /// Clear warnings/errors
    ClearWarnings,
    /// Reset multi-turn data
    ResetMultiTurn,
}

impl RegisterEnum for EncoderReset {
    open spec fn spec_raw(self) -> u16 {
        match self {
            EncoderReset::NoAction => 0,
            EncoderReset::ClearWarnings => 1,
            EncoderReset::ResetMultiTurn => 2,
        }
    }

    open spec fn spec_decode(raw: u16) -> Option<Self> {
        match raw {
            0 => Some(EncoderReset::NoAction),
            1 => Some(EncoderReset::ClearWarnings),
            2 => Some(EncoderReset::ResetMultiTurn),
            _ => None,
        }
    }

    proof fn lemma_decode_raw(self) {
    }

    proof fn lemma_raw_decode(raw: u16) {
    }

    fn to_raw(self) -> (r: u16) {
        match self {
            EncoderReset::NoAction => 0,
            EncoderReset::ClearWarnings => 1,
            EncoderReset::ResetMultiTurn => 2,
        }
    }

    fn from_raw(raw: u16) -> (r: Option<Self>) {
        match raw {
            0 => Some(EncoderReset::NoAction),
            1 => Some(EncoderReset::ClearWarnings),
            2 => Some(EncoderReset::ResetMultiTurn),
            _ => None,
        }
    }
}

/// Multi-segment operation mode (P13.00)
#[derive(Debug, Clone, Copy, PartialEq, Eq, Default)]
pub enum MultiSegOperationMode {
    /// Single execution
    Single,
    /// Cycle execution
    #[default]
    Cycle,
    /// DI switch selection
    DiSwitch,
}

impl RegisterEnum for MultiSegOperationMode {
    open spec fn spec_raw(self) -> u16 {
        match self {
            MultiSegOperationMode::Single => 0,
            MultiSegOperationMode::Cycle => 1,
            MultiSegOperationMode::DiSwitch => 2,
        }
    }

    open spec fn spec_decode(raw: u16) -> Option<Self> {
        match raw {
            0 => Some(MultiSegOperationMode::Single),
            1 => Some(MultiSegOperationMode::Cycle),
            2 => Some(MultiSegOperationMode::DiSwitch),
            _ => None,
        }
    }

    proof fn lemma_decode_raw(self) {
    }

    proof fn lemma_raw_decode(raw: u16) {
    }

    fn to_raw(self) -> (r: u16) {
        match self {
            MultiSegOperationMode::Single => 0,
            MultiSegOperationMode::Cycle => 1,
            MultiSegOperationMode::DiSwitch => 2,
        }
    }

    fn from_raw(raw: u16) -> (r: Option<Self>) {
        match raw {
            0 => Some(MultiSegOperationMode::Single),
            1 => Some(MultiSegOperationMode::Cycle),
            2 => Some(MultiSegOperationMode::DiSwitch),
            _ => None,
        }
    }
}

/// Multi-segment position mode (P13.05)
#[derive(Debug, Clone, Copy, PartialEq, Eq, Default)]
pub enum MultiSegPositionMode {
    /// Incremental positioning
    #[default]
    Incremental,
    /// Absolute positioning
    Absolute,
}

impl RegisterEnum for MultiSegPositionMode {
    open spec fn spec_raw(self) -> u16 {
        match self {
            MultiSegPositionMode::Incremental => 0,
            MultiSegPositionMode::Absolute => 1,
        }
    }

    open spec fn spec_decode(raw: u16) -> Option<Self> {
        match raw {
            0 => Some(MultiSegPositionMode::Incremental),
            1 => Some(MultiSegPositionMode::Absolute),
            _ => None,
        }
    }

    proof fn lemma_decode_raw(self) {
    }

    proof fn lemma_raw_decode(raw: u16) {
    }

    fn to_raw(self) -> (r: u16) {
        match self {
            MultiSegPositionMode::Incremental => 0,
            MultiSegPositionMode::Absolute => 1,
        }
    }

    fn from_raw(raw: u16) -> (r: Option<Self>) {
        match raw {
            0 => Some(MultiSegPositionMode::Incremental),
            1 => Some(MultiSegPositionMode::Absolute),
            _ => None,
        }
    }
}

/// Wait time unit (P13.04)
#[derive(Debug, Clone, Copy, PartialEq, Eq, Default)]
pub enum WaitTimeUnit {
    /// Milliseconds
    #[default]
    Milliseconds,
    /// Seconds
    Seconds,
}

impl RegisterEnum for WaitTimeUnit {
    open spec fn spec_raw(self) -> u16 {
        match self {
            WaitTimeUnit::Milliseconds => 0,
            WaitTimeUnit::Seconds => 1,
        }
    }

    open spec fn spec_decode(raw: u16) -> Option<Self> {
        match raw {
            0 => Some(WaitTimeUnit::Milliseconds),
            1 => Some(WaitTimeUnit::Seconds),
            _ => None,
        }
    }

    proof fn lemma_decode_raw(self) {
    }

    proof fn lemma_raw_decode(raw: u16) {
    }

    fn to_raw(self) -> (r: u16) {
        match self {
            WaitTimeUnit::Milliseconds => 0,
            WaitTimeUnit::Seconds => 1,
        }
    }

    fn from_raw(raw: u16) -> (r: Option<Self>) {
        match raw {
            0 => Some(WaitTimeUnit::Milliseconds),
            1 => Some(WaitTimeUnit::Seconds),
            _ => None,
        }
    }
}

/// Homing mode (P16.09)
#[derive(Debug, Clone, Copy, PartialEq, Eq, Default)]
pub enum HomingMode {
    /// Mode 0: Forward + limit switch + Z pulse
    #[default]
    Mode0,
    /// Mode 1: Reverse + limit switch + Z pulse
    Mode1,
    /// Mode 2: Forward + home switch + Z pulse
    Mode2,
    /// Mode 3: Reverse + home switch + Z pulse
    Mode3,
    /// Mode 4: Forward + limit switch
    Mode4,
    /// Mode 5: Reverse + limit switch
    Mode5,
    /// Mode 6: Forward + home switch
    Mode6,
    /// Mode 7: Reverse + home switch
    Mode7,
    /// Mode 8: Z pulse only (forward)
    Mode8,
    /// Mode 9: Z pulse only (reverse)
    Mode9,
    /// Mode 10: Current position as home
    Mode10,
    /// Mode 11-17: Additional modes (see manual)
    Mode11,
    Mode12,
    Mode13,
    Mode14,
    Mode15,
    Mode16,
    Mode17,
}

impl RegisterEnum for HomingMode {
    open spec fn spec_raw(self) -> u16 {
        match self {
            HomingMode::Mode0 => 0,
            HomingMode::Mode1 => 1,
            HomingMode::Mode2 => 2,
            HomingMode::Mode3 => 3,
            HomingMode::Mode4 => 4,
            HomingMode::Mode5 => 5,
            HomingMode::Mode6 => 6,
            HomingMode::Mode7 => 7,
            HomingMode::Mode8 => 8,
            HomingMode::Mode9 => 9,
            HomingMode::Mode10 => 10,
            HomingMode::Mode11 => 11,
            HomingMode::Mode12 => 12,
            HomingMode::Mode13 => 13,
            HomingMode::Mode14 => 14,
            HomingMode::Mode15 => 15,
            HomingMode::Mode16 => 16,
            HomingMode::Mode17 => 17,
        }
    }

    open spec fn spec_decode(raw: u16) -> Option<Self> {
        match raw {
            0 => Some(HomingMode::Mode0),
            1 => Some(HomingMode::Mode1),
            2 => Some(HomingMode::Mode2),
            3 => Some(HomingMode::Mode3),
            4 => Some(HomingMode::Mode4),
            5 => Some(HomingMode::Mode5),
            6 => Some(HomingMode::Mode6),
            7 => Some(HomingMode::Mode7),
            8 => Some(HomingMode::Mode8),
            9 => Some(HomingMode::Mode9),
            10 => Some(HomingMode::Mode10),
            11 => Some(HomingMode::Mode11),
            12 => Some(HomingMode::Mode12),
            13 => Some(HomingMode::Mode13),
            14 => Some(HomingMode::Mode14),
            15 => Some(HomingMode::Mode15),
            16 => Some(HomingMode::Mode16),
            17 => Some(HomingMode::Mode17),
            _ => None,
        }
    }

    proof fn lemma_decode_raw(self) {
    }

    proof fn lemma_raw_decode(raw: u16) {
    }

    fn to_raw(self) -> (r: u16) {
        match self {
            HomingMode::Mode0 => 0,
            HomingMode::Mode1 => 1,
            HomingMode::Mode2 => 2,
            HomingMode::Mode3 => 3,
            HomingMode::Mode4 => 4,
            HomingMode::Mode5 => 5,
            HomingMode::Mode6 => 6,
            HomingMode::Mode7 => 7,
            HomingMode::Mode8 => 8,
            HomingMode::Mode9 => 9,
            HomingMode::Mode10 => 10,
            HomingMode::Mode11 => 11,
            HomingMode::Mode12 => 12,
            HomingMode::Mode13 => 13,
            HomingMode::Mode14 => 14,
            HomingMode::Mode15 => 15,
            HomingMode::Mode16 => 16,
            HomingMode::Mode17 => 17,
        }
    }

    fn from_raw(raw: u16) -> (r: Option<Self>) {
        match raw {
            0 => Some(HomingMode::Mode0),
            1 => Some(HomingMode::Mode1),
            2 => Some(HomingMode::Mode2),
            3 => Some(HomingMode::Mode3),
            4 => Some(HomingMode::Mode4),
            5 => Some(HomingMode::Mode5),
            6 => Some(HomingMode::Mode6),
            7 => Some(HomingMode::Mode7),
            8 => Some(HomingMode::Mode8),
            9 => Some(HomingMode::Mode9),
            10 => Some(HomingMode::Mode10),
            11 => Some(HomingMode::Mode11),
            12 => Some(HomingMode::Mode12),
            13 => Some(HomingMode::Mode13),
            14 => Some(HomingMode::Mode14),
            15 => Some(HomingMode::Mode15),
            16 => Some(HomingMode::Mode16),
            17 => Some(HomingMode::Mode17),
            _ => None,
        }
    }
}

/// Homing enable control mode (P16.08)
#[derive(Debug, Clone, Copy, PartialEq, Eq, Default)]
pub enum HomingEnableMode {
    /// Homing function turned off
    #[default]
    Disabled,
    /// Homing started by the HomingStart signal through DI
    DiStart,
    /// Return to home immediately after power-on
    AtPowerOn,
    /// Return to home immediately
    Immediate,
    /// Take the current position as home
    CurrentPosition,
    /// Set home through DI trigger
    DiSetHome,
    /// Homing driven by the host computer
    HostComputer,
}

impl RegisterEnum for HomingEnableMode {
    open spec fn spec_raw(self) -> u16 {
        match self {
            HomingEnableMode::Disabled => 0,
            HomingEnableMode::DiStart => 1,
            HomingEnableMode::AtPowerOn => 2,
            HomingEnableMode::Immediate => 3,
            HomingEnableMode::CurrentPosition => 4,
            HomingEnableMode::DiSetHome => 5,
            HomingEnableMode::HostComputer => 6,
        }
    }

    open spec fn spec_decode(raw: u16) -> Option<Self> {
        match raw {
            0 => Some(HomingEnableMode::Disabled),
            1 => Some(HomingEnableMode::DiStart),
            2 => Some(HomingEnableMode::AtPowerOn),
            3 => Some(HomingEnableMode::Immediate),
            4 => Some(HomingEnableMode::CurrentPosition),
            5 => Some(HomingEnableMode::DiSetHome),
            6 => Some(HomingEnableMode::HostComputer),
            _ => None,
        }
    }

    proof fn lemma_decode_raw(self) {
    }

    proof fn lemma_raw_decode(raw: u16) {
    }

    fn to_raw(self) -> (r: u16) {
        match self {
            HomingEnableMode::Disabled => 0,
            HomingEnableMode::DiStart => 1,
            HomingEnableMode::AtPowerOn => 2,
            HomingEnableMode::Immediate => 3,
            HomingEnableMode::CurrentPosition => 4,
            HomingEnableMode::DiSetHome => 5,
            HomingEnableMode::HostComputer => 6,
        }
    }

    fn from_raw(raw: u16) -> (r: Option<Self>) {
        match raw {
            0 => Some(HomingEnableMode::Disabled),
            1 => Some(HomingEnableMode::DiStart),
            2 => Some(HomingEnableMode::AtPowerOn),
            3 => Some(HomingEnableMode::Immediate),
            4 => Some(HomingEnableMode::CurrentPosition),
            5 => Some(HomingEnableMode::DiSetHome),
            6 => Some(HomingEnableMode::HostComputer),
            _ => None,
        }
    }
}


impl BaudRate {
    /// The line speed in bits per second.
    pub open spec fn spec_bps(self) -> u32 {
        match self {
            BaudRate::Baud2400 => 2400,
            BaudRate::Baud4800 => 4800,
            BaudRate::Baud9600 => 9600,
            BaudRate::Baud19200 => 19200,
            BaudRate::Baud38400 => 38400,
            BaudRate::Baud57600 => 57600,
            BaudRate::Baud115200 => 115200,
        }
    }

    /// Get the actual baud rate value
    pub fn to_bps(self) -> (r: u32)
        ensures
            r == self.spec_bps(),
    {
        match self {
            BaudRate::Baud2400 => 2400,
            BaudRate::Baud4800 => 4800,
            BaudRate::Baud9600 => 9600,
            BaudRate::Baud19200 => 19200,
            BaudRate::Baud38400 => 38400,
            BaudRate::Baud57600 => 57600,
            BaudRate::Baud115200 => 115200,
        }
    }
}

// ============================================================================
// P18 - Status Enums
// ============================================================================

/// Servo status (P18.00)
#[derive(Debug, Clone, Copy, PartialEq, Eq)]
pub enum ServoState {
    /// Servo ready
    Ready,
    /// Servo running
    Running,
    /// Servo error
    Error,
    /// Servo alarm
    Alarm,
    /// Unknown state
    Unknown(u16),
}

/// The state a raw status word stands for: its low four bits select the
/// state, any other low nibble keeps the whole word as unknown.
///
/// This mapping is provisional: it follows the simplified reading of the
/// status register and should be confirmed against the device manual.
pub open spec fn servo_state_of(value: u16) -> ServoState {
    let nibble = value % 16;
    if nibble == 0 {
        ServoState::Ready
    } else if nibble == 1 {
        ServoState::Running
    } else if nibble == 2 {
        ServoState::Error
    } else if nibble == 3 {
        ServoState::Alarm
    } else {
        ServoState::Unknown(value)
    }
}

impl From<u16> for ServoState {
    fn from(value: u16) -> (r: Self)
        ensures
            r == servo_state_of(value),
    {
        let nibble = value & 0x0F;
        assert(value & 0x0F == value % 16) by (bit_vector);
        match nibble {
            0 => ServoState::Ready,
            1 => ServoState::Running,
            2 => ServoState::Error,
            3 => ServoState::Alarm,
            _ => ServoState::Unknown(value),
        }
    }
}

impl vstd::std_specs::convert::FromSpecImpl<u16> for ServoState {
    open spec fn obeys_from_spec() -> bool {
        true
    }

    open spec fn from_spec(v: u16) -> Self {
        servo_state_of(v)
    }
}

// ============================================================================
// Configuration Structures
// ============================================================================

/// Servo drive configuration
///
/// The expected motor identity fields are only compared against what the
/// drive reports during initialization; they are never written.
#[derive(Debug, Clone, Copy, PartialEq, Eq)]
pub struct ServoConfig {
    /// Modbus slave ID (1-247)
    pub slave_id: u8,
    /// Control mode
    pub control_mode: ControlMode,
    /// Rotation direction
    pub direction: Direction,
    /// Maximum speed (rpm)
    pub max_speed: u16,
    /// Expected motor model code (P01.00)
    pub motor_model_code: Option<u16>,
    /// Expected rated current (P01.04), in units of 0.01 A
    pub rated_current: Option<u16>,
    /// Expected encoder type (P01.18)
    pub encoder_type: Option<EncoderType>,
    /// Expected encoder resolution (P01.20)
    pub encoder_resolution: Option<u32>,
}

impl ServoConfig {
    /// Create a new servo configuration with default values
    pub fn new(slave_id: u8) -> (r: Self)
        ensures
            r == (ServoConfig {
                slave_id,
                control_mode: ControlMode::Position,
                direction: Direction::CcwForward,
                max_speed: 4500,
                motor_model_code: None,
                rated_current: None,
                encoder_type: None,
                encoder_resolution: None,
            }),
    {
        ServoConfig {
            slave_id,
            control_mode: ControlMode::Position,
            direction: Direction::CcwForward,
            max_speed: 4500,
            motor_model_code: None,
            rated_current: None,
            encoder_type: None,
            encoder_resolution: None,
        }
    }

    /// Set control mode
    pub fn with_control_mode(self, mode: ControlMode) -> (r: Self)
        ensures
            r == (ServoConfig { control_mode: mode, ..self }),
    {
        ServoConfig { control_mode: mode, ..self }
    }

    /// Set direction
    pub fn with_direction(self, direction: Direction) -> (r: Self)
        ensures
            r == (ServoConfig { direction, ..self }),
    {
        ServoConfig { direction, ..self }
    }

    /// Set maximum speed
    pub fn with_max_speed(self, rpm: u16) -> (r: Self)
        ensures
            r == (ServoConfig { max_speed: rpm, ..self }),
    {
        ServoConfig { max_speed: rpm, ..self }
    }

    /// Set motor model code
    pub fn with_motor_model_code(self, code: u16) -> (r: Self)
        ensures
            r == (ServoConfig { motor_model_code: Some(code), ..self }),
    {
        ServoConfig { motor_model_code: Some(code), ..self }
    }

    /// Set rated current, in units of 0.01 A
    pub fn with_rated_current(self, current: u16) -> (r: Self)
        ensures
            r == (ServoConfig { rated_current: Some(current), ..self }),
    {
        ServoConfig { rated_current: Some(current), ..self }
    }

    /// Set encoder type
    pub fn with_encoder_type(self, encoder: EncoderType) -> (r: Self)
        ensures
            r == (ServoConfig { encoder_type: Some(encoder), ..self }),
    {
        ServoConfig { encoder_type: Some(encoder), ..self }
    }

    /// Set encoder resolution
    pub fn with_encoder_resolution(self, resolution: u32) -> (r: Self)
        ensures
            r == (ServoConfig { encoder_resolution: Some(resolution), ..self }),
    {
        ServoConfig { encoder_resolution: Some(resolution), ..self }
    }
}

/// Multi-segment position configuration
#[derive(Debug, Clone, Copy, PartialEq, Eq)]
pub struct SegmentConfig {
    /// Segment number (1-16)
    pub segment: u8,
    /// Displacement (32-bit signed)
    pub displacement: i32,
    /// Maximum speed (rpm)
    pub speed: u16,
    /// Acceleration/deceleration time (ms)
    pub accel_decel_time: u16,
    /// Wait time after motion
    pub wait_time: u16,
}

impl SegmentConfig {
    /// Create a new segment configuration
    pub fn new(segment: u8) -> (r: Result<Self>)
        ensures
            1 <= segment <= 16 ==> r == Ok::<SegmentConfig, DsyrsError>(
                SegmentConfig {
                    segment,
                    displacement: 0,
                    speed: 200,
                    accel_decel_time: 50,
                    wait_time: 0,
                },
            ),
            !(1 <= segment <= 16) ==> r == Err::<SegmentConfig, DsyrsError>(
                DsyrsError::InvalidSegment(segment),
            ),
    {
        if segment < 1 || segment > 16 {
            return Err(DsyrsError::InvalidSegment(segment));
        }
        Ok(SegmentConfig { segment, displacement: 0, speed: 200, accel_decel_time: 50, wait_time: 0 })
    }

    /// Set displacement
    pub fn with_displacement(self, displacement: i32) -> (r: Self)
        ensures
            r == (SegmentConfig { displacement, ..self }),
    {
        SegmentConfig { displacement, ..self }
    }

    /// Set speed
    pub fn with_speed(self, rpm: u16) -> (r: Self)
        ensures
            r == (SegmentConfig { speed: rpm, ..self }),
    {
        SegmentConfig { speed: rpm, ..self }
    }

    /// Set acceleration/deceleration time
    pub fn with_accel_decel(self, ms: u16) -> (r: Self)
        ensures
            r == (SegmentConfig { accel_decel_time: ms, ..self }),
    {
        SegmentConfig { accel_decel_time: ms, ..self }
    }

    /// Set wait time
    pub fn with_wait_time(self, time: u16) -> (r: Self)
        ensures
            r == (SegmentConfig { wait_time: time, ..self }),
    {
        SegmentConfig { wait_time: time, ..self }
    }
}

/// Homing configuration
#[derive(Debug, Clone, Copy, PartialEq, Eq)]
pub struct HomingConfig {
    /// Homing mode
    pub mode: HomingMode,
    /// High speed for searching (rpm)
    pub high_speed: u16,
    /// Low speed for precise positioning (rpm)
    pub low_speed: u16,
    /// Acceleration limit (ms)
    pub accel_limit: u16,
    /// Timeout (ms)
    pub timeout: u16,
    /// Home offset
    pub offset: i32,
}

impl Default for HomingConfig {
    fn default() -> (r: Self)
        ensures
            r == (HomingConfig {
                mode: HomingMode::Mode0,
                high_speed: 100,
                low_speed: 10,
                accel_limit: 1000,
                timeout: 10000,
                offset: 0,
            }),
    {
        HomingConfig {
            mode: HomingMode::Mode0,
            high_speed: 100,
            low_speed: 10,
            accel_limit: 1000,
            timeout: 10000,
            offset: 0,
        }
    }
}

impl HomingConfig {
    /// Set homing mode
    pub fn with_mode(self, mode: HomingMode) -> (r: Self)
        ensures
            r == (HomingConfig { mode, ..self }),
    {
        HomingConfig { mode, ..self }
    }

    /// Set high speed
    pub fn with_high_speed(self, rpm: u16) -> (r: Self)
        ensures
            r == (HomingConfig { high_speed: rpm, ..self }),
    {
        HomingConfig { high_speed: rpm, ..self }
    }

    /// Set low speed
    pub fn with_low_speed(self, rpm: u16) -> (r: Self)
        ensures
            r == (HomingConfig { low_speed: rpm, ..self }),
    {
        HomingConfig { low_speed: rpm, ..self }
    }

    /// Set acceleration limit
    pub fn with_accel_limit(self, ms: u16) -> (r: Self)
        ensures
            r == (HomingConfig { accel_limit: ms, ..self }),
    {
        HomingConfig { accel_limit: ms, ..self }
    }

    /// Set timeout
    pub fn with_timeout(self, ms: u16) -> (r: Self)
        ensures
            r == (HomingConfig { timeout: ms, ..self }),
    {
        HomingConfig { timeout: ms, ..self }
    }

    /// Set home offset
    pub fn with_offset(self, offset: i32) -> (r: Self)
        ensures
            r == (HomingConfig { offset, ..self }),
    {
        HomingConfig { offset, ..self }
    }
}

/// Jog configuration
#[derive(Debug, Clone, Copy, PartialEq, Eq)]
pub struct JogConfig {
    /// Jog speed (rpm)
    pub speed: u16,
    /// Acceleration time (ms)
    pub accel_time: u16,
    /// Deceleration time (ms)
    pub decel_time: u16,
}

impl Default for JogConfig {
    fn default() -> (r: Self)
        ensures
            r == (JogConfig { speed: 200, accel_time: 50, decel_time: 50 }),
    {
        JogConfig { speed: 200, accel_time: 50, decel_time: 50 }
    }
}

impl JogConfig {
    /// Set jog speed
    pub fn with_speed(self, rpm: u16) -> (r: Self)
        ensures
            r == (JogConfig { speed: rpm, ..self }),
    {
        JogConfig { speed: rpm, ..self }
    }

    /// Set acceleration time
    pub fn with_accel(self, ms: u16) -> (r: Self)
        ensures
            r == (JogConfig { accel_time: ms, ..self }),
    {
        JogConfig { accel_time: ms, ..self }
    }

    /// Set deceleration time
    pub fn with_decel(self, ms: u16) -> (r: Self)
        ensures
            r == (JogConfig { decel_time: ms, ..self }),
    {
        JogConfig { decel_time: ms, ..self }
    }
}

/// Servo status information
///
/// A best-effort snapshot: each field comes from its own register read.
/// Values are in the drive's raw units.
#[derive(Debug, Clone, Copy, PartialEq, Eq)]
pub struct ServoStatus {
    /// Current servo state
    pub state: ServoState,
    /// Motor speed feedback (rpm)
    pub speed: i16,
    /// Average load rate (0.1%)
    pub load_rate: u16,
    /// Internal torque (0.1% of rated)
    pub torque: i16,
    /// Phase current RMS (0.01 A)
    pub current: u16,
    /// DC bus voltage (0.1 V)
    pub bus_voltage: u16,
    /// Absolute position
    pub position: i32,
    /// Electrical angle (0.1 degree)
    pub electrical_angle: u16,
}

/// Gain parameters for tuning
#[derive(Debug, Clone, Copy, PartialEq, Eq)]
pub struct GainParams {
    /// Position loop gain (0.1 Hz)
    pub position_gain: u16,
    /// Speed loop gain (0.1 Hz)
    pub speed_gain: u16,
    /// Speed loop integral time (0.01 ms)
    pub speed_integral: u16,
    /// Speed detection filter (0.01 ms)
    pub speed_filter: u16,
}

impl Default for GainParams {
    fn default() -> (r: Self)
        ensures
            r == (GainParams {
                position_gain: 320,
                speed_gain: 180,
                speed_integral: 3100,
                speed_filter: 20,
            }),
    {
        GainParams {
            position_gain: 320,  // 32.0 Hz
            speed_gain: 180,  // 18.0 Hz
            speed_integral: 3100,  // 31.0 ms
            speed_filter: 20,  // 0.2 ms
        }
    }
}

/// Communication configuration
#[derive(Debug, Clone, Copy, PartialEq, Eq)]
pub struct CommConfig {
    /// Slave address (0-247, 0=broadcast)
    pub address: u8,
    /// Baud rate
    pub baud_rate: BaudRate,
    /// Data format
    pub data_format: DataFormat,
    /// Address source
    pub address_source: AddressSource,
}

impl Default for CommConfig {
    fn default() -> (r: Self)
        ensures
            r == (CommConfig {
                address: 1,
                baud_rate: BaudRate::Baud115200,
                data_format: DataFormat::NoParity2Stop,
                address_source: AddressSource::DipSwitch,
            }),
    {
        CommConfig {
            address: 1,
            baud_rate: BaudRate::Baud115200,
            data_format: DataFormat::NoParity2Stop,
            address_source: AddressSource::DipSwitch,
        }
    }
}

} // verus!
