//! The parameter surface of a DSY-RS drive, as plans of bus commands.
//!
//! Every operation is planned here and carried out by an [`Exchange`]
//! driven by the transport owner. Arguments are checked before a plan is
//! made: an operation that fails validation yields no command at all. Read
//! operations come with a decoder that turns the registers returned by the
//! exchange into the typed value.
//!
//! [`Exchange`]: crate::exchange::Exchange
use crate::exchange::{blocks_of, is_read, ops_of, BusOp, Command};
use crate::registers as reg;
use crate::registers::{segment_register, family_register, SegmentField};
use crate::types::{
    BaudRate, CommConfig, ControlMode, DataFormat, DiFunction, DiLogic, Direction,
    DoFunction, DoLogic, DsyrsError, EncoderReset, EncoderType, GainParams, HomingConfig,
    HomingEnableMode, HomingMode, JogConfig, MultiSegOperationMode, MultiSegPositionMode,
    PositionCmdSource, PulseShape, RegisterEnum, Result, SegmentConfig, ServoConfig, ServoState,
    ServoStatus, SystemInit, servo_state_of,
};
use crate::words::{
    high_word, i16_bits, i16_from_raw, i16_of_bits, i16_to_raw, i32_bits, i32_from_bits,
    i32_of_bits, i32_to_bits, join_u32, join_words, low_word, split_u32,
};
use vstd::prelude::*;
use vstd::string::*;

verus! {

// ============================================================================
// Transaction engine
// ============================================================================

/// The bus operation that writes a 32-bit value as two registers, high word
/// at `addr` and low word at `addr + 1`.
pub open spec fn write_u32_op(addr: u16, value: u32) -> BusOp {
    BusOp::WriteBlock(addr, seq![high_word(value), low_word(value)])
}

fn write_one(addr: u16, value: u16) -> (r: Vec<Command>)
    ensures
        ops_of(r@) == seq![BusOp::Write(addr, value)],
{
    let r = vec![Command::WriteRegister(addr, value)];
    assert(ops_of(r@) =~= seq![BusOp::Write(addr, value)]);
    r
}

fn read_one(addr: u16, count: u16) -> (r: Vec<Command>)
    ensures
        ops_of(r@) == seq![BusOp::Read(addr, count)],
{
    let r = vec![Command::ReadRegisters(addr, count)];
    assert(ops_of(r@) =~= seq![BusOp::Read(addr, count)]);
    r
}

fn u32_command(addr: u16, value: u32) -> (r: Command)
    ensures
        r@ == write_u32_op(addr, value),
{
    let (high, low) = split_u32(value);
    let words = vec![high, low];
    assert(words@ =~= seq![high_word(value), low_word(value)]);
    Command::WriteRegisters(addr, words)
}

/// Write a single holding register
pub fn write_register(addr: u16, value: u16) -> (r: Vec<Command>)
    ensures
        ops_of(r@) == seq![BusOp::Write(addr, value)],
{
    write_one(addr, value)
}

/// Write multiple holding registers, starting at `addr`
pub fn write_registers(addr: u16, values: Vec<u16>) -> (r: Vec<Command>)
    ensures
        ops_of(r@) == seq![BusOp::WriteBlock(addr, values@)],
{
    let ghost block = values@;
    let r = vec![Command::WriteRegisters(addr, values)];
    assert(ops_of(r@) =~= seq![BusOp::WriteBlock(addr, block)]);
    r
}

/// Read `count` holding registers; decode with [`registers_reply`]
pub fn read_registers(addr: u16, count: u16) -> (r: Vec<Command>)
    ensures
        ops_of(r@) == seq![BusOp::Read(addr, count)],
{
    read_one(addr, count)
}

/// Read a single holding register; decode with [`word_reply`]
pub fn read_register(addr: u16) -> (r: Vec<Command>)
    ensures
        ops_of(r@) == seq![BusOp::Read(addr, 1)],
{
    read_one(addr, 1)
}

/// Write a 32-bit value as two consecutive registers
pub fn write_u32(addr: u16, value: u32) -> (r: Vec<Command>)
    ensures
        ops_of(r@) == seq![write_u32_op(addr, value)],
{
    let r = vec![u32_command(addr, value)];
    assert(ops_of(r@) =~= seq![write_u32_op(addr, value)]);
    r
}

/// Write a signed 32-bit value as two consecutive registers
pub fn write_i32(addr: u16, value: i32) -> (r: Vec<Command>)
    ensures
        ops_of(r@) == seq![write_u32_op(addr, i32_bits(value))],
{
    write_u32(addr, i32_to_bits(value))
}

/// Read a 32-bit value from two consecutive registers; decode with [`u32_reply`]
pub fn read_u32(addr: u16) -> (r: Vec<Command>)
    ensures
        ops_of(r@) == seq![BusOp::Read(addr, 2)],
{
    read_one(addr, 2)
}

/// Read a signed 32-bit value from two consecutive registers; decode with
/// [`i32_reply`]
pub fn read_i32(addr: u16) -> (r: Vec<Command>)
    ensures
        ops_of(r@) == seq![BusOp::Read(addr, 2)],
{
    read_one(addr, 2)
}

/// 32-bit round trip over the bus: the two registers that a 32-bit write
/// puts at `addr` and `addr + 1`, read back and joined high word first, give
/// the value written; for a signed value, read back as signed.
pub proof fn lemma_u32_register_round_trip(addr: u16, value: u32, signed: i32)
    ensures
        write_u32_op(addr, value) matches BusOp::WriteBlock(a, words) && a == addr && words.len()
            == 2 && join_words(words[0], words[1]) == value,
        write_u32_op(addr, i32_bits(signed)) matches BusOp::WriteBlock(a, words) && a == addr
            && words.len() == 2 && i32_of_bits(join_words(words[0], words[1])) == signed,
{
    crate::words::lemma_u32_round_trip(value);
    crate::words::lemma_i32_round_trip(signed);
}

// ============================================================================
// Decoding replies
// ============================================================================

/// Whether `reads` is the reply to a plan with one read of `count` registers.
pub open spec fn one_block(reads: Seq<Seq<u16>>, count: nat) -> bool {
    reads.len() == 1 && reads[0].len() == count
}

fn malformed<T>() -> (r: Result<T>)
    ensures
        r matches Err(DsyrsError::OperationFailed(_)),
{
    Err(DsyrsError::OperationFailed(String::from_str("reply does not match the request")))
}

/// The registers of a single read.
pub fn registers_reply(reads: &Vec<Vec<u16>>) -> (r: Result<Vec<u16>>)
    ensures
        blocks_of(reads@).len() == 1 ==> r is Ok && r->Ok_0@ == blocks_of(reads@)[0],
        blocks_of(reads@).len() != 1 ==> r matches Err(DsyrsError::OperationFailed(_)),
{
    if reads.len() != 1 {
        return malformed();
    }
    Ok(reads[0].clone())
}

/// The register of a single one-register read.
pub fn word_reply(reads: &Vec<Vec<u16>>) -> (r: Result<u16>)
    ensures
        one_block(blocks_of(reads@), 1) ==> r == Ok::<u16, DsyrsError>(blocks_of(reads@)[0][0]),
        !one_block(blocks_of(reads@), 1) ==> r matches Err(DsyrsError::OperationFailed(_)),
{
    if reads.len() != 1 || reads[0].len() != 1 {
        return malformed();
    }
    Ok(reads[0][0])
}

/// The register of a single one-register read, as a signed value.
pub fn signed_word_reply(reads: &Vec<Vec<u16>>) -> (r: Result<i16>)
    ensures
        one_block(blocks_of(reads@), 1) ==> r == Ok::<i16, DsyrsError>(
            i16_of_bits(blocks_of(reads@)[0][0]),
        ),
        !one_block(blocks_of(reads@), 1) ==> r matches Err(DsyrsError::OperationFailed(_)),
{
    if reads.len() != 1 || reads[0].len() != 1 {
        return malformed();
    }
    Ok(i16_from_raw(reads[0][0]))
}

/// The 32-bit value of a single two-register read, high word first.
pub fn u32_reply(reads: &Vec<Vec<u16>>) -> (r: Result<u32>)
    ensures
        one_block(blocks_of(reads@), 2) ==> r == Ok::<u32, DsyrsError>(
            join_words(blocks_of(reads@)[0][0], blocks_of(reads@)[0][1]),
        ),
        !one_block(blocks_of(reads@), 2) ==> r matches Err(DsyrsError::OperationFailed(_)),
{
    if reads.len() != 1 || reads[0].len() != 2 {
        return malformed();
    }
    Ok(join_u32(reads[0][0], reads[0][1]))
}

/// The signed 32-bit value of a single two-register read, high word first.
pub fn i32_reply(reads: &Vec<Vec<u16>>) -> (r: Result<i32>)
    ensures
        one_block(blocks_of(reads@), 2) ==> r == Ok::<i32, DsyrsError>(
            i32_of_bits(join_words(blocks_of(reads@)[0][0], blocks_of(reads@)[0][1])),
        ),
        !one_block(blocks_of(reads@), 2) ==> r matches Err(DsyrsError::OperationFailed(_)),
{
    if reads.len() != 1 || reads[0].len() != 2 {
        return malformed();
    }
    Ok(i32_from_bits(join_u32(reads[0][0], reads[0][1])))
}

/// The control mode of a single one-register read; a raw value that no mode
/// has is an error carrying that value.
pub fn control_mode_reply(reads: &Vec<Vec<u16>>) -> (r: Result<ControlMode>)
    ensures
        one_block(blocks_of(reads@), 1) ==> match ControlMode::spec_decode(blocks_of(reads@)[0][0]) {
            Some(mode) => r == Ok::<ControlMode, DsyrsError>(mode),
            None => r == Err::<ControlMode, DsyrsError>(
                DsyrsError::InvalidRawValue(blocks_of(reads@)[0][0]),
            ),
        },
        !one_block(blocks_of(reads@), 1) ==> r matches Err(DsyrsError::OperationFailed(_)),
{
    let raw = match word_reply(reads) {
        Ok(raw) => raw,
        Err(e) => return Err(e),
    };
    ControlMode::try_from(raw)
}

/// The servo state of a single one-register read.
pub fn servo_state_reply(reads: &Vec<Vec<u16>>) -> (r: Result<ServoState>)
    ensures
        one_block(blocks_of(reads@), 1) ==> r == Ok::<ServoState, DsyrsError>(
            servo_state_of(blocks_of(reads@)[0][0]),
        ),
        !one_block(blocks_of(reads@), 1) ==> r matches Err(DsyrsError::OperationFailed(_)),
{
    let raw = match word_reply(reads) {
        Ok(raw) => raw,
        Err(e) => return Err(e),
    };
    Ok(ServoState::from(raw))
}

/// Set control mode (P00.00)
pub fn set_control_mode(mode: ControlMode) -> (r: Vec<Command>)
    ensures
        ops_of(r@) == seq![BusOp::Write(reg::P00_CONTROL_MODE, mode.spec_raw())],
{
    write_one(reg::P00_CONTROL_MODE, mode.to_raw())
}

/// Set direction (P00.01)
pub fn set_direction(direction: Direction) -> (r: Vec<Command>)
    ensures
        ops_of(r@) == seq![BusOp::Write(reg::P00_DIRECTION, direction.spec_raw())],
{
    write_one(reg::P00_DIRECTION, direction.to_raw())
}

/// Set brake ON delay (P00.14, 0-10000 ms)
pub fn set_brake_on_delay(ms: u16) -> (r: Vec<Command>)
    ensures
        ops_of(r@) == seq![BusOp::Write(reg::P00_BRAKE_ON_DELAY, ms)],
{
    write_one(reg::P00_BRAKE_ON_DELAY, ms)
}

/// Set brake OFF delay (P00.15, 10-10000 ms)
pub fn set_brake_off_delay(ms: u16) -> (r: Vec<Command>)
    ensures
        ops_of(r@) == seq![BusOp::Write(reg::P00_BRAKE_OFF_DELAY, ms)],
{
    write_one(reg::P00_BRAKE_OFF_DELAY, ms)
}

/// Set rated current (P01.04), given in units of 0.01 A
pub fn set_rated_current(current: u16) -> (r: Vec<Command>)
    ensures
        ops_of(r@) == seq![BusOp::Write(reg::P01_RATED_CURRENT, current)],
{
    write_one(reg::P01_RATED_CURRENT, current)
}

/// Set rated torque (P01.05), given in units of 0.01 Nm
pub fn set_rated_torque(torque: u16) -> (r: Vec<Command>)
    ensures
        ops_of(r@) == seq![BusOp::Write(reg::P01_RATED_TORQUE, torque)],
{
    write_one(reg::P01_RATED_TORQUE, torque)
}

/// Set encoder type (P01.18)
pub fn set_encoder_type(encoder: EncoderType) -> (r: Vec<Command>)
    ensures
        ops_of(r@) == seq![BusOp::Write(reg::P01_ENCODER_SELECTION, encoder.spec_raw())],
{
    write_one(reg::P01_ENCODER_SELECTION, encoder.to_raw())
}

/// Set position command source (P04.00)
pub fn set_position_cmd_source(source: PositionCmdSource) -> (r: Vec<Command>)
    ensures
        ops_of(r@) == seq![BusOp::Write(reg::P04_POSITION_CMD_SOURCE, source.spec_raw())],
{
    write_one(reg::P04_POSITION_CMD_SOURCE, source.to_raw())
}

/// Set step amount (P04.02, -9999 to 9999)
pub fn set_step_amount(amount: i16) -> (r: Vec<Command>)
    ensures
        ops_of(r@) == seq![BusOp::Write(reg::P04_STEP_AMOUNT, i16_bits(amount))],
{
    write_one(reg::P04_STEP_AMOUNT, i16_to_raw(amount))
}

/// Set pulse shape (P04.21)
pub fn set_pulse_shape(shape: PulseShape) -> (r: Vec<Command>)
    ensures
        ops_of(r@) == seq![BusOp::Write(reg::P04_PULSE_SHAPE, shape.spec_raw())],
{
    write_one(reg::P04_PULSE_SHAPE, shape.to_raw())
}

/// Set positioning completion range (P04.24, 1-65535 pulses)
pub fn set_positioning_range(pulses: u16) -> (r: Vec<Command>)
    ensures
        ops_of(r@) == seq![BusOp::Write(reg::P04_POSITIONING_RANGE, pulses)],
{
    write_one(reg::P04_POSITIONING_RANGE, pulses)
}

/// Set speed command (P05.03, -9000 to 9000 rpm)
pub fn set_speed_command(rpm: i16) -> (r: Vec<Command>)
    ensures
        ops_of(r@) == seq![BusOp::Write(reg::P05_SPEED_COMMAND, i16_bits(rpm))],
{
    write_one(reg::P05_SPEED_COMMAND, i16_to_raw(rpm))
}

/// Set acceleration time (P05.05, 0-10000 ms)
pub fn set_accel_time(ms: u16) -> (r: Vec<Command>)
    ensures
        ops_of(r@) == seq![BusOp::Write(reg::P05_ACCEL_TIME, ms)],
{
    write_one(reg::P05_ACCEL_TIME, ms)
}

/// Set deceleration time (P05.06, 0-10000 ms)
pub fn set_decel_time(ms: u16) -> (r: Vec<Command>)
    ensures
        ops_of(r@) == seq![BusOp::Write(reg::P05_DECEL_TIME, ms)],
{
    write_one(reg::P05_DECEL_TIME, ms)
}

/// Set forward speed limit (P05.08, 0-9000 rpm)
pub fn set_forward_speed_limit(rpm: u16) -> (r: Vec<Command>)
    ensures
        ops_of(r@) == seq![BusOp::Write(reg::P05_FORWARD_SPEED_LIMIT, rpm)],
{
    write_one(reg::P05_FORWARD_SPEED_LIMIT, rpm)
}

/// Set backward speed limit (P05.09, 0-9000 rpm)
pub fn set_backward_speed_limit(rpm: u16) -> (r: Vec<Command>)
    ensures
        ops_of(r@) == seq![BusOp::Write(reg::P05_BACKWARD_SPEED_LIMIT, rpm)],
{
    write_one(reg::P05_BACKWARD_SPEED_LIMIT, rpm)
}

/// Set torque command (P06.05, -3000 to 3000, unit: 0.1% of rated)
pub fn set_torque_command(torque: i16) -> (r: Vec<Command>)
    ensures
        ops_of(r@) == seq![BusOp::Write(reg::P06_TORQUE_COMMAND, i16_bits(torque))],
{
    write_one(reg::P06_TORQUE_COMMAND, i16_to_raw(torque))
}

/// Set forward torque limit (P06.08, 0-5000, unit: 0.1%)
pub fn set_forward_torque_limit(limit: u16) -> (r: Vec<Command>)
    ensures
        ops_of(r@) == seq![BusOp::Write(reg::P06_FORWARD_TORQUE_LIMIT, limit)],
{
    write_one(reg::P06_FORWARD_TORQUE_LIMIT, limit)
}

/// Set backward torque limit (P06.09, 0-5000, unit: 0.1%)
pub fn set_backward_torque_limit(limit: u16) -> (r: Vec<Command>)
    ensures
        ops_of(r@) == seq![BusOp::Write(reg::P06_BACKWARD_TORQUE_LIMIT, limit)],
{
    write_one(reg::P06_BACKWARD_TORQUE_LIMIT, limit)
}

/// Set position loop gain 1 (P07.00, 10-20000, unit: 0.1 Hz)
pub fn set_position_gain(gain: u16) -> (r: Vec<Command>)
    ensures
        ops_of(r@) == seq![BusOp::Write(reg::P07_POSITION_GAIN1, gain)],
{
    write_one(reg::P07_POSITION_GAIN1, gain)
}

/// Set speed loop gain 1 (P07.01, 10-20000, unit: 0.1 Hz)
pub fn set_speed_gain(gain: u16) -> (r: Vec<Command>)
    ensures
        ops_of(r@) == seq![BusOp::Write(reg::P07_SPEED_GAIN1, gain)],
{
    write_one(reg::P07_SPEED_GAIN1, gain)
}

/// Set speed loop integral time 1 (P07.02, 15-512, unit: 0.01 ms)
pub fn set_speed_integral(time: u16) -> (r: Vec<Command>)
    ensures
        ops_of(r@) == seq![BusOp::Write(reg::P07_SPEED_INTEGRAL1, time)],
{
    write_one(reg::P07_SPEED_INTEGRAL1, time)
}

/// Set communication address (P10.00, 0-247)
pub fn set_comm_address(address: u8) -> (r: Vec<Command>)
    ensures
        ops_of(r@) == seq![BusOp::Write(reg::P10_COMM_ADDRESS, address as u16)],
{
    write_one(reg::P10_COMM_ADDRESS, address as u16)
}

/// Set Modbus baud rate (P10.02)
pub fn set_baud_rate(baud: BaudRate) -> (r: Vec<Command>)
    ensures
        ops_of(r@) == seq![BusOp::Write(reg::P10_MODBUS_BAUDRATE, baud.spec_raw())],
{
    write_one(reg::P10_MODBUS_BAUDRATE, baud.to_raw())
}

/// Set Modbus data format (P10.03)
pub fn set_data_format(format: DataFormat) -> (r: Vec<Command>)
    ensures
        ops_of(r@) == seq![BusOp::Write(reg::P10_MODBUS_FORMAT, format.spec_raw())],
{
    write_one(reg::P10_MODBUS_FORMAT, format.to_raw())
}

/// Save parameters to EEPROM (P10.04)
pub fn save_to_eeprom() -> (r: Vec<Command>)
    ensures
        ops_of(r@) == seq![BusOp::Write(reg::P10_WRITE_EEPROM, 1)],
{
    write_one(reg::P10_WRITE_EEPROM, 1)
}

/// Reset fault (P11.01)
pub fn reset_fault() -> (r: Vec<Command>)
    ensures
        ops_of(r@) == seq![BusOp::Write(reg::P11_FAULT_RESET, 1)],
{
    write_one(reg::P11_FAULT_RESET, 1)
}

/// Soft reset (P11.02)
pub fn soft_reset() -> (r: Vec<Command>)
    ensures
        ops_of(r@) == seq![BusOp::Write(reg::P11_SOFT_RESET, 1)],
{
    write_one(reg::P11_SOFT_RESET, 1)
}

/// Factory reset (P11.09)
pub fn factory_reset() -> (r: Vec<Command>)
    ensures
        ops_of(r@) == seq![BusOp::Write(reg::P11_SYSTEM_INIT, SystemInit::FactoryReset.spec_raw())],
{
    write_one(reg::P11_SYSTEM_INIT, SystemInit::FactoryReset.to_raw())
}

/// Clear fault record (P11.09)
pub fn clear_fault_record() -> (r: Vec<Command>)
    ensures
        ops_of(r@) == seq![BusOp::Write(reg::P11_SYSTEM_INIT, SystemInit::ClearFaultRecord.spec_raw())],
{
    write_one(reg::P11_SYSTEM_INIT, SystemInit::ClearFaultRecord.to_raw())
}

/// Reset absolute encoder (P11.06)
pub fn reset_encoder(reset: EncoderReset) -> (r: Vec<Command>)
    ensures
        ops_of(r@) == seq![BusOp::Write(reg::P11_ENCODER_RESET, reset.spec_raw())],
{
    write_one(reg::P11_ENCODER_RESET, reset.to_raw())
}

/// Emergency stop (P11.13)
pub fn emergency_stop() -> (r: Vec<Command>)
    ensures
        ops_of(r@) == seq![BusOp::Write(reg::P11_EMERGENCY_STOP, 1)],
{
    write_one(reg::P11_EMERGENCY_STOP, 1)
}

/// Clear emergency stop (P11.13)
pub fn clear_emergency_stop() -> (r: Vec<Command>)
    ensures
        ops_of(r@) == seq![BusOp::Write(reg::P11_EMERGENCY_STOP, 0)],
{
    write_one(reg::P11_EMERGENCY_STOP, 0)
}

/// Set multi-segment operation mode (P13.00)
pub fn set_multi_seg_mode(mode: MultiSegOperationMode) -> (r: Vec<Command>)
    ensures
        ops_of(r@) == seq![BusOp::Write(reg::P13_OPERATION_MODE, mode.spec_raw())],
{
    write_one(reg::P13_OPERATION_MODE, mode.to_raw())
}

/// Set multi-segment position mode (P13.05)
pub fn set_multi_seg_position_mode(mode: MultiSegPositionMode) -> (r: Vec<Command>)
    ensures
        ops_of(r@) == seq![BusOp::Write(reg::P13_POSITION_MODE, mode.spec_raw())],
{
    write_one(reg::P13_POSITION_MODE, mode.to_raw())
}

/// Set homing enable control mode (P16.08)
pub fn set_homing_enable_mode(mode: HomingEnableMode) -> (r: Vec<Command>)
    ensures
        ops_of(r@) == seq![BusOp::Write(reg::P16_HOMING_ENABLE_MODE, mode.spec_raw())],
{
    write_one(reg::P16_HOMING_ENABLE_MODE, mode.to_raw())
}

/// Set homing mode (P16.09)
pub fn set_homing_mode(mode: HomingMode) -> (r: Vec<Command>)
    ensures
        ops_of(r@) == seq![BusOp::Write(reg::P16_HOMING_MODE, mode.spec_raw())],
{
    write_one(reg::P16_HOMING_MODE, mode.to_raw())
}

/// Set homing high speed (P16.10, 10-3000 rpm)
pub fn set_homing_high_speed(rpm: u16) -> (r: Vec<Command>)
    ensures
        ops_of(r@) == seq![BusOp::Write(reg::P16_HOMING_HIGH_SPEED, rpm)],
{
    write_one(reg::P16_HOMING_HIGH_SPEED, rpm)
}

/// Set homing low speed (P16.11, 10-1000 rpm)
pub fn set_homing_low_speed(rpm: u16) -> (r: Vec<Command>)
    ensures
        ops_of(r@) == seq![BusOp::Write(reg::P16_HOMING_LOW_SPEED, rpm)],
{
    write_one(reg::P16_HOMING_LOW_SPEED, rpm)
}

/// Set homing acceleration limit (P16.12, 0-65535 ms)
pub fn set_homing_accel(ms: u16) -> (r: Vec<Command>)
    ensures
        ops_of(r@) == seq![BusOp::Write(reg::P16_HOMING_ACCEL, ms)],
{
    write_one(reg::P16_HOMING_ACCEL, ms)
}

/// Set homing timeout (P16.13, 0-65535 ms)
pub fn set_homing_timeout(ms: u16) -> (r: Vec<Command>)
    ensures
        ops_of(r@) == seq![BusOp::Write(reg::P16_HOMING_TIMEOUT, ms)],
{
    write_one(reg::P16_HOMING_TIMEOUT, ms)
}

/// Read control mode (P00.00); decode with [`control_mode_reply`]
pub fn get_control_mode() -> (r: Vec<Command>)
    ensures
        ops_of(r@) == seq![BusOp::Read(reg::P00_CONTROL_MODE, 1)],
{
    read_one(reg::P00_CONTROL_MODE, 1)
}

/// Read servo status (P18.00); decode with [`servo_state_reply`]
pub fn get_servo_state() -> (r: Vec<Command>)
    ensures
        ops_of(r@) == seq![BusOp::Read(reg::P18_SERVO_STATUS, 1)],
{
    read_one(reg::P18_SERVO_STATUS, 1)
}

/// Read motor speed feedback (P18.01, rpm); decode with [`signed_word_reply`]
pub fn get_speed() -> (r: Vec<Command>)
    ensures
        ops_of(r@) == seq![BusOp::Read(reg::P18_SPEED_FEEDBACK, 1)],
{
    read_one(reg::P18_SPEED_FEEDBACK, 1)
}

/// Read average load rate (P18.02, unit: 0.1%); decode with [`word_reply`]
pub fn get_load_rate() -> (r: Vec<Command>)
    ensures
        ops_of(r@) == seq![BusOp::Read(reg::P18_LOAD_RATE, 1)],
{
    read_one(reg::P18_LOAD_RATE, 1)
}

/// Read speed command (P18.03, rpm); decode with [`signed_word_reply`]
pub fn get_speed_command() -> (r: Vec<Command>)
    ensures
        ops_of(r@) == seq![BusOp::Read(reg::P18_SPEED_COMMAND, 1)],
{
    read_one(reg::P18_SPEED_COMMAND, 1)
}

/// Read internal torque (P18.04, unit: 0.1% of rated); decode with [`signed_word_reply`]
pub fn get_torque() -> (r: Vec<Command>)
    ensures
        ops_of(r@) == seq![BusOp::Read(reg::P18_INTERNAL_TORQUE, 1)],
{
    read_one(reg::P18_INTERNAL_TORQUE, 1)
}

/// Read phase current RMS (P18.05, unit: 0.01 A); decode with [`word_reply`]
pub fn get_current() -> (r: Vec<Command>)
    ensures
        ops_of(r@) == seq![BusOp::Read(reg::P18_PHASE_CURRENT, 1)],
{
    read_one(reg::P18_PHASE_CURRENT, 1)
}

/// Read DC bus voltage (P18.06, unit: 0.1 V); decode with [`word_reply`]
pub fn get_bus_voltage() -> (r: Vec<Command>)
    ensures
        ops_of(r@) == seq![BusOp::Read(reg::P18_BUS_VOLTAGE, 1)],
{
    read_one(reg::P18_BUS_VOLTAGE, 1)
}

/// Read absolute position (P18.07); decode with [`i32_reply`]
pub fn get_position() -> (r: Vec<Command>)
    ensures
        ops_of(r@) == seq![BusOp::Read(reg::P18_ABSOLUTE_POSITION, 2)],
{
    read_one(reg::P18_ABSOLUTE_POSITION, 2)
}

/// Read electrical angle (P18.09, unit: 0.1 degree); decode with [`word_reply`]
pub fn get_electrical_angle() -> (r: Vec<Command>)
    ensures
        ops_of(r@) == seq![BusOp::Read(reg::P18_ELECTRICAL_ANGLE, 1)],
{
    read_one(reg::P18_ELECTRICAL_ANGLE, 1)
}

/// Read software version (P12.12); decode with [`word_reply`]
pub fn get_software_version() -> (r: Vec<Command>)
    ensures
        ops_of(r@) == seq![BusOp::Read(reg::P12_SOFTWARE_VERSION, 1)],
{
    read_one(reg::P12_SOFTWARE_VERSION, 1)
}

/// Read FPGA version (P12.13); decode with [`word_reply`]
pub fn get_fpga_version() -> (r: Vec<Command>)
    ensures
        ops_of(r@) == seq![BusOp::Read(reg::P12_FPGA_VERSION, 1)],
{
    read_one(reg::P12_FPGA_VERSION, 1)
}

/// Read product series code (P12.14); decode with [`word_reply`]
pub fn get_product_code() -> (r: Vec<Command>)
    ensures
        ops_of(r@) == seq![BusOp::Read(reg::P12_PRODUCT_CODE, 1)],
{
    read_one(reg::P12_PRODUCT_CODE, 1)
}

// ============================================================================
// Bus addressing
// ============================================================================

/// Whether a plan holds a read.
pub open spec fn reads_any(ops: Seq<BusOp>) -> bool {
    exists|i: int| 0 <= i < ops.len() && is_read(#[trigger] ops[i])
}

/// Whether a plan may be sent to bus address `slave_id`: addresses run from
/// 0 to 247, and broadcast (0) gets no reply, so it never carries a read.
pub open spec fn may_address(slave_id: u8, ops: Seq<BusOp>) -> bool {
    slave_id <= 247 && !(slave_id == 0 && reads_any(ops))
}

/// Address a plan to one drive: select its bus address first, since another
/// client sharing the bus may have selected a different one since.
pub fn addressed(slave_id: u8, plan: Vec<Command>) -> (r: Result<Vec<Command>>)
    ensures
        may_address(slave_id, ops_of(plan@)) ==> r is Ok && ops_of(r->Ok_0@) == seq![
            BusOp::Select(slave_id),
        ] + ops_of(plan@),
        slave_id > 247 ==> (r matches Err(DsyrsError::InvalidParameter(m)) && m@
            == "Slave ID must be 0-247"@),
        slave_id == 0 && reads_any(ops_of(plan@)) ==> (r matches Err(
            DsyrsError::InvalidParameter(m),
        ) && m@ == "Broadcast address cannot be read from"@),
{
    if slave_id > 247 {
        return Err(DsyrsError::InvalidParameter(String::from_str("Slave ID must be 0-247")));
    }
    let mut has_read = false;
    let mut i: usize = 0;
    while i < plan.len()
        invariant
            i <= plan.len(),
            has_read <==> exists|j: int| 0 <= j < i && is_read(#[trigger] ops_of(plan@)[j]),
        decreases plan.len() - i,
    {
        if let Command::ReadRegisters(_, _) = &plan[i] {
            has_read = true;
        }
        assert(ops_of(plan@)[i as int] == plan@[i as int]@);
        i = i + 1;
    }
    assert(has_read <==> reads_any(ops_of(plan@)));
    if slave_id == 0 && has_read {
        return Err(
            DsyrsError::InvalidParameter(String::from_str("Broadcast address cannot be read from")),
        );
    }
    let ghost before = plan@;
    let mut r = plan;
    r.insert(0, Command::SelectSlave(slave_id));
    assert(ops_of(r@) =~= seq![BusOp::Select(slave_id)] + ops_of(before));
    Ok(r)
}

// ============================================================================
// Range-checked setters
// ============================================================================

fn invalid_parameter(message: &str) -> (r: Result<Vec<Command>>)
    ensures
        r matches Err(DsyrsError::InvalidParameter(m)) && m@ == message@,
{
    Err(DsyrsError::InvalidParameter(String::from_str(message)))
}

/// Set rigidity level (P00.04, 0-31)
pub fn set_rigidity(level: u8) -> (r: Result<Vec<Command>>)
    ensures
        level <= 31 ==> r is Ok && ops_of(r->Ok_0@) == seq![BusOp::Write(reg::P00_RIGIDITY, level as u16)],
        level > 31 ==> (r matches Err(DsyrsError::InvalidParameter(m)) && m@ == "Rigidity must be 0-31"@),
{
    if level > 31 {
        return invalid_parameter("Rigidity must be 0-31");
    }
    Ok(write_one(reg::P00_RIGIDITY, level as u16))
}

/// Set inertia ratio (P00.05, 0-3000, unit: 0.01)
pub fn set_inertia_ratio(ratio: u16) -> (r: Result<Vec<Command>>)
    ensures
        ratio <= 3000 ==> r is Ok && ops_of(r->Ok_0@) == seq![BusOp::Write(reg::P00_INERTIA_RATIO, ratio)],
        ratio > 3000 ==> (r matches Err(DsyrsError::InvalidParameter(m)) && m@ == "Inertia ratio must be 0-3000"@),
{
    if ratio > 3000 {
        return invalid_parameter("Inertia ratio must be 0-3000");
    }
    Ok(write_one(reg::P00_INERTIA_RATIO, ratio))
}

/// Set maximum speed (P00.07, 0-10000 rpm)
pub fn set_max_speed(rpm: u16) -> (r: Result<Vec<Command>>)
    ensures
        rpm <= 10000 ==> r is Ok && ops_of(r->Ok_0@) == seq![BusOp::Write(reg::P00_MAX_SPEED, rpm)],
        rpm > 10000 ==> (r matches Err(DsyrsError::InvalidParameter(m)) && m@ == "Max speed must be 0-10000 rpm"@),
{
    if rpm > 10000 {
        return invalid_parameter("Max speed must be 0-10000 rpm");
    }
    Ok(write_one(reg::P00_MAX_SPEED, rpm))
}

/// Set pole pairs (P01.10, 1-50)
pub fn set_pole_pairs(pairs: u8) -> (r: Result<Vec<Command>>)
    ensures
        1 <= pairs <= 50 ==> r is Ok && ops_of(r->Ok_0@) == seq![BusOp::Write(reg::P01_POLE_PAIRS, pairs as u16)],
        !(1 <= pairs <= 50) ==> (r matches Err(DsyrsError::InvalidParameter(m)) && m@ == "Pole pairs must be 1-50"@),
{
    if pairs < 1 || pairs > 50 {
        return invalid_parameter("Pole pairs must be 1-50");
    }
    Ok(write_one(reg::P01_POLE_PAIRS, pairs as u16))
}

/// Set jog speed (P05.04, 0-9000 rpm)
pub fn set_jog_speed(rpm: u16) -> (r: Result<Vec<Command>>)
    ensures
        rpm <= 9000 ==> r is Ok && ops_of(r->Ok_0@) == seq![BusOp::Write(reg::P05_JOG_SPEED, rpm)],
        rpm > 9000 ==> (r matches Err(DsyrsError::InvalidParameter(m)) && m@ == "Jog speed must be 0-9000 rpm"@),
{
    if rpm > 9000 {
        return invalid_parameter("Jog speed must be 0-9000 rpm");
    }
    Ok(write_one(reg::P05_JOG_SPEED, rpm))
}

/// Set multi-segment start segment (P13.01, 1-16)
pub fn set_multi_seg_start(segment: u8) -> (r: Result<Vec<Command>>)
    ensures
        1 <= segment <= 16 ==> r is Ok && ops_of(r->Ok_0@) == seq![BusOp::Write(reg::P13_START_SEGMENT, segment as u16)],
        !(1 <= segment <= 16) ==> r == Err::<Vec<Command>, DsyrsError>(DsyrsError::InvalidSegment(segment)),
{
    if segment < 1 || segment > 16 {
        return Err(DsyrsError::InvalidSegment(segment));
    }
    Ok(write_one(reg::P13_START_SEGMENT, segment as u16))
}

/// Set multi-segment end segment (P13.02, 1-16)
pub fn set_multi_seg_end(segment: u8) -> (r: Result<Vec<Command>>)
    ensures
        1 <= segment <= 16 ==> r is Ok && ops_of(r->Ok_0@) == seq![BusOp::Write(reg::P13_END_SEGMENT, segment as u16)],
        !(1 <= segment <= 16) ==> r == Err::<Vec<Command>, DsyrsError>(DsyrsError::InvalidSegment(segment)),
{
    if segment < 1 || segment > 16 {
        return Err(DsyrsError::InvalidSegment(segment));
    }
    Ok(write_one(reg::P13_END_SEGMENT, segment as u16))
}

// ============================================================================
// Digital I/O
// ============================================================================

/// Configure digital input function (DI1-DI3)
pub fn set_di_function(input: u8, function: DiFunction) -> (r: Result<Vec<Command>>)
    ensures
        match family_register(2, 0, input, reg::DIGITAL_INPUT_COUNT) {
            Some(addr) => r is Ok && ops_of(r->Ok_0@) == seq![BusOp::Write(addr, function.spec_raw())],
            None => r == Err::<Vec<Command>, DsyrsError>(DsyrsError::InvalidDigitalInput(input)),
        },
{
    match reg::get_di_function_register(input) {
        Some(addr) => Ok(write_one(addr, function.to_raw())),
        None => Err(DsyrsError::InvalidDigitalInput(input)),
    }
}

/// Configure digital input logic (DI1-DI3)
pub fn set_di_logic(input: u8, logic: DiLogic) -> (r: Result<Vec<Command>>)
    ensures
        match family_register(2, 10, input, reg::DIGITAL_INPUT_COUNT) {
            Some(addr) => r is Ok && ops_of(r->Ok_0@) == seq![BusOp::Write(addr, logic.spec_raw())],
            None => r == Err::<Vec<Command>, DsyrsError>(DsyrsError::InvalidDigitalInput(input)),
        },
{
    match reg::get_di_logic_register(input) {
        Some(addr) => Ok(write_one(addr, logic.to_raw())),
        None => Err(DsyrsError::InvalidDigitalInput(input)),
    }
}

/// Configure digital output function (DO1-DO2)
pub fn set_do_function(output: u8, function: DoFunction) -> (r: Result<Vec<Command>>)
    ensures
        match family_register(2, 20, output, reg::DIGITAL_OUTPUT_COUNT) {
            Some(addr) => r is Ok && ops_of(r->Ok_0@) == seq![BusOp::Write(addr, function.spec_raw())],
            None => r == Err::<Vec<Command>, DsyrsError>(DsyrsError::InvalidDigitalOutput(output)),
        },
{
    match reg::get_do_function_register(output) {
        Some(addr) => Ok(write_one(addr, function.to_raw())),
        None => Err(DsyrsError::InvalidDigitalOutput(output)),
    }
}

/// Configure digital output logic (DO1-DO2)
pub fn set_do_logic(output: u8, logic: DoLogic) -> (r: Result<Vec<Command>>)
    ensures
        match family_register(2, 30, output, reg::DIGITAL_OUTPUT_COUNT) {
            Some(addr) => r is Ok && ops_of(r->Ok_0@) == seq![BusOp::Write(addr, logic.spec_raw())],
            None => r == Err::<Vec<Command>, DsyrsError>(DsyrsError::InvalidDigitalOutput(output)),
        },
{
    match reg::get_do_logic_register(output) {
        Some(addr) => Ok(write_one(addr, logic.to_raw())),
        None => Err(DsyrsError::InvalidDigitalOutput(output)),
    }
}

// ============================================================================
// Composite operations
// ============================================================================

/// Set electronic gear ratio (P04.07/P04.09)
pub fn set_gear_ratio(numerator: u32, denominator: u32) -> (r: Vec<Command>)
    ensures
        ops_of(r@) == seq![
            write_u32_op(reg::P04_GEAR1_NUMERATOR, numerator),
            write_u32_op(reg::P04_GEAR1_DENOMINATOR, denominator),
        ],
{
    let r = vec![
        u32_command(reg::P04_GEAR1_NUMERATOR, numerator),
        u32_command(reg::P04_GEAR1_DENOMINATOR, denominator),
    ];
    assert(ops_of(r@) =~= seq![
        write_u32_op(reg::P04_GEAR1_NUMERATOR, numerator),
        write_u32_op(reg::P04_GEAR1_DENOMINATOR, denominator),
    ]);
    r
}

/// Set home offset (P16.14)
pub fn set_home_offset(offset: i32) -> (r: Vec<Command>)
    ensures
        ops_of(r@) == seq![write_u32_op(reg::P16_HOME_OFFSET, i32_bits(offset))],
{
    write_i32(reg::P16_HOME_OFFSET, offset)
}

/// The writes of a jog configuration: speed, acceleration, deceleration.
pub open spec fn jog_config_ops(config: JogConfig) -> Seq<BusOp> {
    seq![
        BusOp::Write(reg::P05_JOG_SPEED, config.speed),
        BusOp::Write(reg::P05_ACCEL_TIME, config.accel_time),
        BusOp::Write(reg::P05_DECEL_TIME, config.decel_time),
    ]
}

/// Apply jog configuration
pub fn apply_jog_config(config: &JogConfig) -> (r: Result<Vec<Command>>)
    ensures
        config.speed <= 9000 ==> r is Ok && ops_of(r->Ok_0@) == jog_config_ops(*config),
        config.speed > 9000 ==> (r matches Err(DsyrsError::InvalidParameter(m)) && m@ == "Jog speed must be 0-9000 rpm"@),
{
    if config.speed > 9000 {
        return invalid_parameter("Jog speed must be 0-9000 rpm");
    }
    let r = vec![
        Command::WriteRegister(reg::P05_JOG_SPEED, config.speed),
        Command::WriteRegister(reg::P05_ACCEL_TIME, config.accel_time),
        Command::WriteRegister(reg::P05_DECEL_TIME, config.decel_time),
    ];
    assert(ops_of(r@) =~= jog_config_ops(*config));
    Ok(r)
}

/// The writes of a gain parameter set, in order.
pub open spec fn gain_params_ops(params: GainParams) -> Seq<BusOp> {
    seq![
        BusOp::Write(reg::P07_POSITION_GAIN1, params.position_gain),
        BusOp::Write(reg::P07_SPEED_GAIN1, params.speed_gain),
        BusOp::Write(reg::P07_SPEED_INTEGRAL1, params.speed_integral),
        BusOp::Write(reg::P07_SPEED_FILTER1, params.speed_filter),
    ]
}

/// Apply gain parameters
pub fn apply_gain_params(params: &GainParams) -> (r: Vec<Command>)
    ensures
        ops_of(r@) == gain_params_ops(*params),
{
    let r = vec![
        Command::WriteRegister(reg::P07_POSITION_GAIN1, params.position_gain),
        Command::WriteRegister(reg::P07_SPEED_GAIN1, params.speed_gain),
        Command::WriteRegister(reg::P07_SPEED_INTEGRAL1, params.speed_integral),
        Command::WriteRegister(reg::P07_SPEED_FILTER1, params.speed_filter),
    ];
    assert(ops_of(r@) =~= gain_params_ops(*params));
    r
}

/// The writes of a communication configuration, in order.
pub open spec fn comm_config_ops(config: CommConfig) -> Seq<BusOp> {
    seq![
        BusOp::Write(reg::P10_COMM_ADDRESS, config.address as u16),
        BusOp::Write(reg::P10_MODBUS_BAUDRATE, config.baud_rate.spec_raw()),
        BusOp::Write(reg::P10_MODBUS_FORMAT, config.data_format.spec_raw()),
        BusOp::Write(reg::P10_RS485_ADDRESS_SOURCE, config.address_source.spec_raw()),
    ]
}

/// Apply communication configuration
pub fn apply_comm_config(config: &CommConfig) -> (r: Vec<Command>)
    ensures
        ops_of(r@) == comm_config_ops(*config),
{
    let r = vec![
        Command::WriteRegister(reg::P10_COMM_ADDRESS, config.address as u16),
        Command::WriteRegister(reg::P10_MODBUS_BAUDRATE, config.baud_rate.to_raw()),
        Command::WriteRegister(reg::P10_MODBUS_FORMAT, config.data_format.to_raw()),
        Command::WriteRegister(reg::P10_RS485_ADDRESS_SOURCE, config.address_source.to_raw()),
    ];
    assert(ops_of(r@) =~= comm_config_ops(*config));
    r
}

/// The writes of a homing configuration: mode, high speed, low speed,
/// acceleration limit, timeout, and the 32-bit home offset.
pub open spec fn homing_config_ops(config: HomingConfig) -> Seq<BusOp> {
    seq![
        BusOp::Write(reg::P16_HOMING_MODE, config.mode.spec_raw()),
        BusOp::Write(reg::P16_HOMING_HIGH_SPEED, config.high_speed),
        BusOp::Write(reg::P16_HOMING_LOW_SPEED, config.low_speed),
        BusOp::Write(reg::P16_HOMING_ACCEL, config.accel_limit),
        BusOp::Write(reg::P16_HOMING_TIMEOUT, config.timeout),
        write_u32_op(reg::P16_HOME_OFFSET, i32_bits(config.offset)),
    ]
}

/// Apply homing configuration
pub fn apply_homing_config(config: &HomingConfig) -> (r: Vec<Command>)
    ensures
        ops_of(r@) == homing_config_ops(*config),
{
    let r = vec![
        Command::WriteRegister(reg::P16_HOMING_MODE, config.mode.to_raw()),
        Command::WriteRegister(reg::P16_HOMING_HIGH_SPEED, config.high_speed),
        Command::WriteRegister(reg::P16_HOMING_LOW_SPEED, config.low_speed),
        Command::WriteRegister(reg::P16_HOMING_ACCEL, config.accel_limit),
        Command::WriteRegister(reg::P16_HOMING_TIMEOUT, config.timeout),
        u32_command(reg::P16_HOME_OFFSET, i32_to_bits(config.offset)),
    ];
    assert(ops_of(r@) =~= homing_config_ops(*config));
    r
}

/// The writes of one multi-segment entry, for a segment in 1-16:
/// displacement (32-bit), speed, acceleration/deceleration time, wait time.
pub open spec fn segment_ops(config: SegmentConfig) -> Seq<BusOp> {
    seq![
        write_u32_op(
            segment_register(SegmentField::Displacement, config.segment)->0,
            i32_bits(config.displacement),
        ),
        BusOp::Write(segment_register(SegmentField::Speed, config.segment)->0, config.speed),
        BusOp::Write(
            segment_register(SegmentField::AccelDecel, config.segment)->0,
            config.accel_decel_time,
        ),
        BusOp::Write(segment_register(SegmentField::WaitTime, config.segment)->0, config.wait_time),
    ]
}

/// Configure a segment
pub fn configure_segment(config: &SegmentConfig) -> (r: Result<Vec<Command>>)
    ensures
        1 <= config.segment <= 16 ==> r is Ok && ops_of(r->Ok_0@) == segment_ops(*config),
        !(1 <= config.segment <= 16) ==> r == Err::<Vec<Command>, DsyrsError>(
            DsyrsError::InvalidSegment(config.segment),
        ),
{
    let segment = config.segment;
    let disp_reg = match reg::get_segment_displacement_register(segment) {
        Some(a) => a,
        None => return Err(DsyrsError::InvalidSegment(segment)),
    };
    let speed_reg = match reg::get_segment_speed_register(segment) {
        Some(a) => a,
        None => return Err(DsyrsError::InvalidSegment(segment)),
    };
    let accel_reg = match reg::get_segment_accel_decel_register(segment) {
        Some(a) => a,
        None => return Err(DsyrsError::InvalidSegment(segment)),
    };
    let wait_reg = match reg::get_segment_wait_time_register(segment) {
        Some(a) => a,
        None => return Err(DsyrsError::InvalidSegment(segment)),
    };
    let r = vec![
        u32_command(disp_reg, i32_to_bits(config.displacement)),
        Command::WriteRegister(speed_reg, config.speed),
        Command::WriteRegister(accel_reg, config.accel_decel_time),
        Command::WriteRegister(wait_reg, config.wait_time),
    ];
    assert(ops_of(r@) =~= segment_ops(*config));
    Ok(r)
}

// ============================================================================
// Initialization
// ============================================================================

/// The initialization plan: write control mode, direction and maximum
/// speed; then read back motor model, rated current, encoder type and the
/// two-register encoder resolution.
pub open spec fn init_ops(config: ServoConfig) -> Seq<BusOp> {
    seq![
        BusOp::Write(reg::P00_CONTROL_MODE, config.control_mode.spec_raw()),
        BusOp::Write(reg::P00_DIRECTION, config.direction.spec_raw()),
        BusOp::Write(reg::P00_MAX_SPEED, config.max_speed),
        BusOp::Read(reg::P01_MOTOR_MODEL, 1),
        BusOp::Read(reg::P01_RATED_CURRENT, 1),
        BusOp::Read(reg::P01_ENCODER_SELECTION, 1),
        BusOp::Read(reg::P01_ENCODER_RESOLUTION, 2),
    ]
}

/// Initialize the servo drive with configured parameters; address the plan
/// with [`addressed`] and decode the reply with [`identity_reply`]
pub fn init(config: &ServoConfig) -> (r: Vec<Command>)
    ensures
        ops_of(r@) == init_ops(*config),
{
    let r = vec![
        Command::WriteRegister(reg::P00_CONTROL_MODE, config.control_mode.to_raw()),
        Command::WriteRegister(reg::P00_DIRECTION, config.direction.to_raw()),
        Command::WriteRegister(reg::P00_MAX_SPEED, config.max_speed),
        Command::ReadRegisters(reg::P01_MOTOR_MODEL, 1),
        Command::ReadRegisters(reg::P01_RATED_CURRENT, 1),
        Command::ReadRegisters(reg::P01_ENCODER_SELECTION, 1),
        Command::ReadRegisters(reg::P01_ENCODER_RESOLUTION, 2),
    ];
    assert(ops_of(r@) =~= init_ops(*config));
    r
}

/// A difference between the motor identity the caller expected and the one
/// the drive reports. Such findings are advisory: the drive's identity
/// registers are authoritative.
#[derive(Debug, Clone, Copy, PartialEq, Eq)]
pub enum IdentityMismatch {
    /// Motor model code (P01.00)
    MotorModel { expected: u16, read: u16 },
    /// Rated current (P01.04), in units of 0.01 A
    RatedCurrent { expected: u16, read: u16 },
    /// Encoder type (P01.18)
    EncoderType { expected: EncoderType, read: u16 },
    /// Encoder resolution (P01.20)
    EncoderResolution { expected: u32, read: u32 },
}

/// Whether two rated currents, in units of 0.01 A, differ by more than the
/// 0.01 A tolerance.
pub open spec fn currents_differ(expected: u16, read: u16) -> bool {
    expected as int - read as int > 1 || read as int - expected as int > 1
}

/// The findings of comparing the expected identity in `config` with the
/// values read from the drive, in the order of the fields.
pub open spec fn identity_mismatches(
    config: ServoConfig,
    model: u16,
    current: u16,
    encoder: u16,
    resolution: u32,
) -> Seq<IdentityMismatch> {
    let a = match config.motor_model_code {
        Some(e) if e != model => seq![IdentityMismatch::MotorModel { expected: e, read: model }],
        _ => Seq::empty(),
    };
    let b = match config.rated_current {
        Some(e) if currents_differ(e, current) => seq![
            IdentityMismatch::RatedCurrent { expected: e, read: current },
        ],
        _ => Seq::empty(),
    };
    let c = match config.encoder_type {
        Some(e) if e.spec_raw() != encoder => seq![
            IdentityMismatch::EncoderType { expected: e, read: encoder },
        ],
        _ => Seq::empty(),
    };
    let d = match config.encoder_resolution {
        Some(e) if e != resolution => seq![
            IdentityMismatch::EncoderResolution { expected: e, read: resolution },
        ],
        _ => Seq::empty(),
    };
    a + b + c + d
}

/// Whether `reads` is the reply to the reads of [`init_ops`].
pub open spec fn identity_shape(reads: Seq<Seq<u16>>) -> bool {
    &&& reads.len() == 4
    &&& reads[0].len() == 1
    &&& reads[1].len() == 1
    &&& reads[2].len() == 1
    &&& reads[3].len() == 2
}

/// Compare the identity read during initialization with the expectations of
/// `config`. Initialization succeeds whatever the findings.
pub fn identity_reply(config: &ServoConfig, reads: &Vec<Vec<u16>>) -> (r: Result<
    Vec<IdentityMismatch>,
>)
    ensures
        identity_shape(blocks_of(reads@)) ==> r is Ok && r->Ok_0@ == identity_mismatches(
            *config,
            blocks_of(reads@)[0][0],
            blocks_of(reads@)[1][0],
            blocks_of(reads@)[2][0],
            join_words(blocks_of(reads@)[3][0], blocks_of(reads@)[3][1]),
        ),
        !identity_shape(blocks_of(reads@)) ==> r matches Err(DsyrsError::OperationFailed(_)),
{
    if reads.len() != 4 || reads[0].len() != 1 || reads[1].len() != 1 || reads[2].len() != 1
        || reads[3].len() != 2 {
        return malformed();
    }
    let model = reads[0][0];
    let current = reads[1][0];
    let encoder = reads[2][0];
    let resolution = join_u32(reads[3][0], reads[3][1]);
    let mut found: Vec<IdentityMismatch> = Vec::new();
    if let Some(e) = config.motor_model_code {
        if e != model {
            found.push(IdentityMismatch::MotorModel { expected: e, read: model });
        }
    }
    if let Some(e) = config.rated_current {
        if e > current && e - current > 1 || current > e && current - e > 1 {
            found.push(IdentityMismatch::RatedCurrent { expected: e, read: current });
        }
    }
    if let Some(e) = config.encoder_type {
        if e.to_raw() != encoder {
            found.push(IdentityMismatch::EncoderType { expected: e, read: encoder });
        }
    }
    if let Some(e) = config.encoder_resolution {
        if e != resolution {
            found.push(IdentityMismatch::EncoderResolution { expected: e, read: resolution });
        }
    }
    assert(found@ =~= identity_mismatches(*config, model, current, encoder, resolution));
    Ok(found)
}

// ============================================================================
// Status snapshot
// ============================================================================

/// The reads of a status snapshot, one per field.
pub open spec fn status_ops() -> Seq<BusOp> {
    seq![
        BusOp::Read(reg::P18_SERVO_STATUS, 1),
        BusOp::Read(reg::P18_SPEED_FEEDBACK, 1),
        BusOp::Read(reg::P18_LOAD_RATE, 1),
        BusOp::Read(reg::P18_INTERNAL_TORQUE, 1),
        BusOp::Read(reg::P18_PHASE_CURRENT, 1),
        BusOp::Read(reg::P18_BUS_VOLTAGE, 1),
        BusOp::Read(reg::P18_ABSOLUTE_POSITION, 2),
        BusOp::Read(reg::P18_ELECTRICAL_ANGLE, 1),
    ]
}

/// Get complete servo status; decode with [`status_reply`]
pub fn get_status() -> (r: Vec<Command>)
    ensures
        ops_of(r@) == status_ops(),
{
    let r = vec![
        Command::ReadRegisters(reg::P18_SERVO_STATUS, 1),
        Command::ReadRegisters(reg::P18_SPEED_FEEDBACK, 1),
        Command::ReadRegisters(reg::P18_LOAD_RATE, 1),
        Command::ReadRegisters(reg::P18_INTERNAL_TORQUE, 1),
        Command::ReadRegisters(reg::P18_PHASE_CURRENT, 1),
        Command::ReadRegisters(reg::P18_BUS_VOLTAGE, 1),
        Command::ReadRegisters(reg::P18_ABSOLUTE_POSITION, 2),
        Command::ReadRegisters(reg::P18_ELECTRICAL_ANGLE, 1),
    ];
    assert(ops_of(r@) =~= status_ops());
    r
}

/// Whether `reads` is the reply to the reads of [`status_ops`].
pub open spec fn status_shape(reads: Seq<Seq<u16>>) -> bool {
    &&& reads.len() == 8
    &&& forall|i: int| 0 <= i < 8 && i != 6 ==> #[trigger] reads[i].len() == 1
    &&& reads[6].len() == 2
}

/// The snapshot that the registers of [`status_ops`] stand for.
pub open spec fn status_of(reads: Seq<Seq<u16>>) -> ServoStatus {
    ServoStatus {
        state: servo_state_of(reads[0][0]),
        speed: i16_of_bits(reads[1][0]),
        load_rate: reads[2][0],
        torque: i16_of_bits(reads[3][0]),
        current: reads[4][0],
        bus_voltage: reads[5][0],
        position: i32_of_bits(join_words(reads[6][0], reads[6][1])),
        electrical_angle: reads[7][0],
    }
}

/// Assemble the status snapshot from the registers read by [`get_status`].
pub fn status_reply(reads: &Vec<Vec<u16>>) -> (r: Result<ServoStatus>)
    ensures
        status_shape(blocks_of(reads@)) ==> r == Ok::<ServoStatus, DsyrsError>(
            status_of(blocks_of(reads@)),
        ),
        !status_shape(blocks_of(reads@)) ==> r matches Err(DsyrsError::OperationFailed(_)),
{
    if reads.len() != 8 || reads[0].len() != 1 || reads[1].len() != 1 || reads[2].len() != 1
        || reads[3].len() != 1 || reads[4].len() != 1 || reads[5].len() != 1
        || reads[6].len() != 2 || reads[7].len() != 1 {
        proof {
            let b = blocks_of(reads@);
            if status_shape(b) {
                assert(b[0].len() == 1 && b[1].len() == 1 && b[2].len() == 1 && b[3].len() == 1);
                assert(b[4].len() == 1 && b[5].len() == 1 && b[7].len() == 1);
            }
        }
        return malformed();
    }
    let ghost b = blocks_of(reads@);
    assert(status_shape(b));
    Ok(
        ServoStatus {
            state: ServoState::from(reads[0][0]),
            speed: i16_from_raw(reads[1][0]),
            load_rate: reads[2][0],
            torque: i16_from_raw(reads[3][0]),
            current: reads[4][0],
            bus_voltage: reads[5][0],
            position: i32_from_bits(join_u32(reads[6][0], reads[6][1])),
            electrical_angle: reads[7][0],
        },
    )
}

} // verus!
