use std::collections::HashMap;

use dsyrs::exchange::{Command, Exchange};
use dsyrs::ops;
use dsyrs::ops::IdentityMismatch;
use dsyrs::registers;
use dsyrs::types::{
    ControlMode, Direction, DsyrsError, EncoderType, GainParams, HomingConfig, HomingMode,
    JogConfig, SegmentConfig, ServoConfig, ServoState, DiFunction, DoLogic, CommConfig,
};
use tokio_modbus::ExceptionCode;

/// A transport double: it logs every command, answers reads from canned
/// registers (zero where none is set) and can fail one chosen command.
struct FakeBus {
    log: Vec<Command>,
    registers: HashMap<u16, u16>,
    fail_at: Option<usize>,
    link_down: bool,
    short_reads: bool,
}

impl FakeBus {
    fn new() -> Self {
        FakeBus {
            log: Vec::new(),
            registers: HashMap::new(),
            fail_at: None,
            link_down: false,
            short_reads: false,
        }
    }

    fn with(mut self, addr: u16, value: u16) -> Self {
        self.registers.insert(addr, value);
        self
    }

    fn perform(&mut self, command: &Command) -> Result<Vec<u16>, DsyrsError> {
        let index = self.log.len();
        self.log.push(command.clone());
        if self.link_down {
            let e = std::io::Error::new(std::io::ErrorKind::TimedOut, "no reply");
            return Err(DsyrsError::Modbus(e));
        }
        if self.fail_at == Some(index) {
            return Err(DsyrsError::ModbusException(ExceptionCode::IllegalDataValue));
        }
        match command {
            Command::ReadRegisters(addr, count) => {
                let n = if self.short_reads { count - 1 } else { *count };
                Ok((0..n).map(|i| *self.registers.get(&(addr + i)).unwrap_or(&0)).collect())
            }
            _ => Ok(Vec::new()),
        }
    }

    fn run(&mut self, plan: Vec<Command>) -> Result<Vec<Vec<u16>>, DsyrsError> {
        let mut exchange = Exchange::new(plan);
        while let Some(command) = exchange.pending() {
            let command = command.clone();
            let reply = self.perform(&command);
            exchange.complete(reply);
        }
        exchange.outcome()
    }

    fn writes(&self) -> usize {
        self.log
            .iter()
            .filter(|c| matches!(c, Command::WriteRegister(..) | Command::WriteRegisters(..)))
            .count()
    }
}

#[test]
fn rigidity_out_of_range_issues_no_transaction() {
    let mut bus = FakeBus::new();
    let result = ops::set_rigidity(32).and_then(|plan| bus.run(plan));
    assert!(matches!(result, Err(DsyrsError::InvalidParameter(_))));
    assert!(bus.log.is_empty());
}

#[test]
fn rigidity_in_range_issues_one_write() {
    let mut bus = FakeBus::new();
    let result = ops::set_rigidity(31).and_then(|plan| bus.run(plan));
    assert!(result.is_ok());
    assert_eq!(bus.log, vec![Command::WriteRegister(registers::P00_RIGIDITY, 31)]);
}

#[test]
fn range_checks_of_setters() {
    assert!(ops::set_inertia_ratio(3000).is_ok());
    assert!(matches!(ops::set_inertia_ratio(3001), Err(DsyrsError::InvalidParameter(_))));
    assert!(ops::set_max_speed(10000).is_ok());
    assert!(matches!(ops::set_max_speed(10001), Err(DsyrsError::InvalidParameter(_))));
    assert!(matches!(ops::set_pole_pairs(0), Err(DsyrsError::InvalidParameter(_))));
    assert!(ops::set_pole_pairs(1).is_ok());
    assert!(ops::set_pole_pairs(50).is_ok());
    assert!(matches!(ops::set_pole_pairs(51), Err(DsyrsError::InvalidParameter(_))));
    assert!(ops::set_jog_speed(9000).is_ok());
    assert!(matches!(ops::set_jog_speed(9001), Err(DsyrsError::InvalidParameter(_))));
    assert!(matches!(ops::set_multi_seg_start(0), Err(DsyrsError::InvalidSegment(0))));
    assert!(matches!(ops::set_multi_seg_end(17), Err(DsyrsError::InvalidSegment(17))));
    assert_eq!(
        ops::set_multi_seg_end(16).unwrap(),
        vec![Command::WriteRegister(registers::P13_END_SEGMENT, 16)]
    );
}

#[test]
fn digital_io_channels_are_checked() {
    assert!(matches!(
        ops::set_di_function(4, DiFunction::ServoEnable),
        Err(DsyrsError::InvalidDigitalInput(4))
    ));
    assert!(matches!(ops::set_do_logic(3, DoLogic::NormallyClosed), Err(DsyrsError::InvalidDigitalOutput(3))));
    assert_eq!(
        ops::set_di_function(2, DiFunction::ServoEnable).unwrap(),
        vec![Command::WriteRegister(registers::P02_DI2_FUNCTION, 1)]
    );
    assert_eq!(
        ops::set_do_logic(2, DoLogic::NormallyClosed).unwrap(),
        vec![Command::WriteRegister(registers::P02_DO2_LOGIC, 1)]
    );
}

#[test]
fn signed_setters_write_twos_complement() {
    assert_eq!(ops::set_speed_command(-1), vec![Command::WriteRegister(registers::P05_SPEED_COMMAND, 0xFFFF)]);
    assert_eq!(ops::set_torque_command(-3000), vec![Command::WriteRegister(registers::P06_TORQUE_COMMAND, 62536)]);
    assert_eq!(ops::set_step_amount(9999), vec![Command::WriteRegister(registers::P04_STEP_AMOUNT, 9999)]);
    assert_eq!(
        ops::set_home_offset(-2),
        vec![Command::WriteRegisters(registers::P16_HOME_OFFSET, vec![0xFFFF, 0xFFFE])]
    );
    assert_eq!(
        ops::set_gear_ratio(0x0001_0000, 3),
        vec![
            Command::WriteRegisters(registers::P04_GEAR1_NUMERATOR, vec![1, 0]),
            Command::WriteRegisters(registers::P04_GEAR1_DENOMINATOR, vec![0, 3]),
        ]
    );
}

#[test]
fn fixed_value_commands() {
    assert_eq!(ops::save_to_eeprom(), vec![Command::WriteRegister(registers::P10_WRITE_EEPROM, 1)]);
    assert_eq!(ops::emergency_stop(), vec![Command::WriteRegister(registers::P11_EMERGENCY_STOP, 1)]);
    assert_eq!(ops::clear_emergency_stop(), vec![Command::WriteRegister(registers::P11_EMERGENCY_STOP, 0)]);
    assert_eq!(ops::factory_reset(), vec![Command::WriteRegister(registers::P11_SYSTEM_INIT, 1)]);
    assert_eq!(ops::clear_fault_record(), vec![Command::WriteRegister(registers::P11_SYSTEM_INIT, 2)]);
}

#[test]
fn init_writes_three_then_reads_four() {
    let config = ServoConfig::new(1)
        .with_max_speed(3000)
        .with_control_mode(ControlMode::Position)
        .with_direction(Direction::CwForward);
    let mut bus = FakeBus::new()
        .with(registers::P01_MOTOR_MODEL, 0x1234)
        .with(registers::P01_RATED_CURRENT, 300);
    let reads = ops::addressed(config.slave_id, ops::init(&config)).and_then(|plan| bus.run(plan)).unwrap();
    assert_eq!(
        bus.log,
        vec![
            Command::SelectSlave(1),
            Command::WriteRegister(registers::P00_CONTROL_MODE, 0),
            Command::WriteRegister(registers::P00_DIRECTION, 1),
            Command::WriteRegister(registers::P00_MAX_SPEED, 3000),
            Command::ReadRegisters(registers::P01_MOTOR_MODEL, 1),
            Command::ReadRegisters(registers::P01_RATED_CURRENT, 1),
            Command::ReadRegisters(registers::P01_ENCODER_SELECTION, 1),
            Command::ReadRegisters(registers::P01_ENCODER_RESOLUTION, 2),
        ]
    );
    assert_eq!(bus.writes(), 3);
    let findings = ops::identity_reply(&config, &reads).unwrap();
    assert!(findings.is_empty());
}

#[test]
fn init_reports_identity_mismatches_without_failing() {
    let config = ServoConfig::new(7)
        .with_motor_model_code(0x1234)
        .with_rated_current(302)
        .with_encoder_type(EncoderType::Bit23Absolute)
        .with_encoder_resolution(0x0080_0000);
    let mut bus = FakeBus::new()
        .with(registers::P01_MOTOR_MODEL, 0x1234)
        .with(registers::P01_RATED_CURRENT, 300)
        .with(registers::P01_ENCODER_SELECTION, 1)
        .with(registers::P01_ENCODER_RESOLUTION, 0x0002)
        .with(registers::P01_ENCODER_RESOLUTION + 1, 0);
    let reads = ops::addressed(config.slave_id, ops::init(&config)).and_then(|plan| bus.run(plan)).unwrap();
    let findings = ops::identity_reply(&config, &reads).unwrap();
    assert_eq!(
        findings,
        vec![
            IdentityMismatch::RatedCurrent { expected: 302, read: 300 },
            IdentityMismatch::EncoderType { expected: EncoderType::Bit23Absolute, read: 1 },
            IdentityMismatch::EncoderResolution { expected: 0x0080_0000, read: 0x0002_0000 },
        ]
    );
    let close = ServoConfig::new(7).with_rated_current(301);
    assert!(ops::identity_reply(&close, &reads).unwrap().is_empty());
}

#[test]
fn broadcast_address_is_never_read_from() {
    let init = ops::init(&ServoConfig::new(0));
    assert!(matches!(ops::addressed(0, init.clone()), Err(DsyrsError::InvalidParameter(_))));
    assert!(matches!(ops::addressed(0, ops::get_speed()), Err(DsyrsError::InvalidParameter(_))));
    assert!(matches!(ops::addressed(248, ops::save_to_eeprom()), Err(DsyrsError::InvalidParameter(_))));
    assert_eq!(
        ops::addressed(0, ops::save_to_eeprom()).unwrap(),
        vec![Command::SelectSlave(0), Command::WriteRegister(registers::P10_WRITE_EEPROM, 1)]
    );
    assert_eq!(ops::addressed(247, init).unwrap().len(), 8);
}

#[test]
fn control_mode_try_from_raw() {
    assert_eq!(ControlMode::try_from(2).unwrap(), ControlMode::Torque);
    assert!(matches!(ControlMode::try_from(3), Err(DsyrsError::InvalidRawValue(3))));
}

fn homing_example() -> HomingConfig {
    HomingConfig::default()
        .with_mode(HomingMode::Mode4)
        .with_high_speed(500)
        .with_low_speed(100)
        .with_accel_limit(200)
        .with_timeout(30000)
        .with_offset(0)
}

#[test]
fn homing_apply_issues_six_ordered_writes() {
    let mut bus = FakeBus::new();
    bus.run(ops::apply_homing_config(&homing_example())).unwrap();
    assert_eq!(
        bus.log,
        vec![
            Command::WriteRegister(registers::P16_HOMING_MODE, 4),
            Command::WriteRegister(registers::P16_HOMING_HIGH_SPEED, 500),
            Command::WriteRegister(registers::P16_HOMING_LOW_SPEED, 100),
            Command::WriteRegister(registers::P16_HOMING_ACCEL, 200),
            Command::WriteRegister(registers::P16_HOMING_TIMEOUT, 30000),
            Command::WriteRegisters(registers::P16_HOME_OFFSET, vec![0, 0]),
        ]
    );
}

#[test]
fn homing_apply_stops_at_failed_third_write() {
    let mut bus = FakeBus::new();
    bus.fail_at = Some(2);
    let result = bus.run(ops::apply_homing_config(&homing_example()));
    assert!(matches!(
        result,
        Err(DsyrsError::ModbusException(ExceptionCode::IllegalDataValue))
    ));
    assert_eq!(bus.log.len(), 3);
    assert_eq!(bus.log[2], Command::WriteRegister(registers::P16_HOMING_LOW_SPEED, 100));
}

#[test]
fn status_snapshot_matches_canned_registers() {
    let mut bus = FakeBus::new()
        .with(registers::P18_SERVO_STATUS, 1)
        .with(registers::P18_SPEED_FEEDBACK, (-1500i16) as u16)
        .with(registers::P18_LOAD_RATE, 456)
        .with(registers::P18_INTERNAL_TORQUE, (-250i16) as u16)
        .with(registers::P18_PHASE_CURRENT, 312)
        .with(registers::P18_BUS_VOLTAGE, 2200)
        .with(registers::P18_ABSOLUTE_POSITION, 0xFFFF)
        .with(registers::P18_ABSOLUTE_POSITION + 1, 0xFF00)
        .with(registers::P18_ELECTRICAL_ANGLE, 1800);
    let reads = bus.run(ops::get_status()).unwrap();
    let status = ops::status_reply(&reads).unwrap();
    assert_eq!(bus.log.len(), 8);
    assert_eq!(status.state, ServoState::Running);
    assert_eq!(status.speed, -1500);
    assert_eq!(status.load_rate, 456);
    assert_eq!(status.torque, -250);
    assert_eq!(status.current, 312);
    assert_eq!(status.bus_voltage, 2200);
    assert!((status.bus_voltage as f32 * 0.1 - 220.0).abs() < 1e-3);
    assert_eq!(status.position, -256);
    assert_eq!(status.electrical_angle, 1800);
}

#[test]
fn single_register_getters() {
    let mut bus = FakeBus::new()
        .with(registers::P00_CONTROL_MODE, 1)
        .with(registers::P12_SOFTWARE_VERSION, 0x0102)
        .with(registers::P18_SPEED_FEEDBACK, 0xFFFE);
    let mode = ops::control_mode_reply(&bus.run(ops::get_control_mode()).unwrap());
    assert_eq!(mode.unwrap(), ControlMode::Speed);
    let version = ops::word_reply(&bus.run(ops::get_software_version()).unwrap());
    assert_eq!(version.unwrap(), 0x0102);
    let speed = ops::signed_word_reply(&bus.run(ops::get_speed()).unwrap());
    assert_eq!(speed.unwrap(), -2);
    let state = ops::servo_state_reply(&bus.run(ops::get_servo_state()).unwrap());
    assert_eq!(state.unwrap(), ServoState::Ready);
}

#[test]
fn undecodable_control_mode_is_an_error() {
    let mut bus = FakeBus::new().with(registers::P00_CONTROL_MODE, 9);
    let mode = ops::control_mode_reply(&bus.run(ops::get_control_mode()).unwrap());
    assert!(matches!(mode, Err(DsyrsError::InvalidRawValue(9))));
}

#[test]
fn thirty_two_bit_reads() {
    let mut bus = FakeBus::new().with(100, 0x8000).with(101, 0x0001);
    let u = ops::u32_reply(&bus.run(ops::read_u32(100)).unwrap()).unwrap();
    assert_eq!(u, 0x8000_0001);
    let i = ops::i32_reply(&bus.run(ops::read_i32(100)).unwrap()).unwrap();
    assert_eq!(i, i32::MIN + 1);
    let block = ops::registers_reply(&bus.run(ops::read_registers(100, 2)).unwrap()).unwrap();
    assert_eq!(block, vec![0x8000, 0x0001]);
}

#[test]
fn write_then_read_round_trip_on_fake_bus() {
    for v in [i32::MIN, -1, 0, i32::MAX] {
        let mut bus = FakeBus::new();
        bus.run(ops::write_i32(200, v)).unwrap();
        if let Command::WriteRegisters(addr, words) = &bus.log[0] {
            bus.registers.insert(*addr, words[0]);
            bus.registers.insert(*addr + 1, words[1]);
        }
        let back = ops::i32_reply(&bus.run(ops::read_i32(200)).unwrap()).unwrap();
        assert_eq!(back, v);
    }
}

#[test]
fn short_read_fails_the_exchange() {
    let mut bus = FakeBus::new();
    bus.short_reads = true;
    let result = bus.run(ops::get_status());
    assert!(matches!(result, Err(DsyrsError::OperationFailed(_))));
    assert_eq!(bus.log.len(), 1);
}

#[test]
fn malformed_replies_are_rejected_by_decoders() {
    assert!(matches!(ops::word_reply(&vec![]), Err(DsyrsError::OperationFailed(_))));
    assert!(matches!(ops::i32_reply(&vec![vec![1]]), Err(DsyrsError::OperationFailed(_))));
    assert!(matches!(ops::status_reply(&vec![vec![1]; 8]), Err(DsyrsError::OperationFailed(_))));
}

#[test]
fn composite_plans() {
    let jog = JogConfig::default().with_speed(300).with_accel(40).with_decel(60);
    assert_eq!(
        ops::apply_jog_config(&jog).unwrap(),
        vec![
            Command::WriteRegister(registers::P05_JOG_SPEED, 300),
            Command::WriteRegister(registers::P05_ACCEL_TIME, 40),
            Command::WriteRegister(registers::P05_DECEL_TIME, 60),
        ]
    );
    let fast = JogConfig::default().with_speed(9001);
    assert!(matches!(ops::apply_jog_config(&fast), Err(DsyrsError::InvalidParameter(_))));
    assert_eq!(ops::apply_gain_params(&GainParams::default()).len(), 4);
    assert_eq!(
        ops::apply_comm_config(&CommConfig::default())[1],
        Command::WriteRegister(registers::P10_MODBUS_BAUDRATE, 6)
    );
    let segment = SegmentConfig::new(2).unwrap().with_displacement(-10).with_speed(100);
    assert_eq!(
        ops::configure_segment(&segment).unwrap(),
        vec![
            Command::WriteRegisters(registers::P13_SEG2_DISPLACEMENT, vec![0xFFFF, 0xFFF6]),
            Command::WriteRegister(registers::P13_SEG2_SPEED, 100),
            Command::WriteRegister(registers::P13_SEG2_ACCEL_DECEL, 50),
            Command::WriteRegister(registers::P13_SEG2_WAIT_TIME, 0),
        ]
    );
    let mut bad = segment;
    bad.segment = 17;
    assert!(matches!(ops::configure_segment(&bad), Err(DsyrsError::InvalidSegment(17))));
}

#[test]
fn configuration_defaults_and_builders() {
    let config = ServoConfig::new(3);
    assert_eq!(config.max_speed, 4500);
    assert_eq!(config.control_mode, ControlMode::Position);
    assert_eq!(config.direction, Direction::CcwForward);
    assert_eq!(config.rated_current, None);
    assert!(matches!(SegmentConfig::new(0), Err(DsyrsError::InvalidSegment(0))));
    assert!(matches!(SegmentConfig::new(17), Err(DsyrsError::InvalidSegment(17))));
    let s = SegmentConfig::new(16).unwrap().with_accel_decel(70).with_wait_time(5);
    assert_eq!((s.segment, s.speed, s.accel_decel_time, s.wait_time), (16, 200, 70, 5));
    let h = HomingConfig::default();
    assert_eq!((h.high_speed, h.low_speed, h.accel_limit, h.timeout), (100, 10, 1000, 10000));
    let g = GainParams::default();
    assert_eq!((g.position_gain, g.speed_gain, g.speed_integral, g.speed_filter), (320, 180, 3100, 20));
}

#[test]
fn link_failure_is_passed_on_unchanged() {
    let mut bus = FakeBus::new();
    bus.link_down = true;
    let result = bus.run(ops::get_status());
    match result {
        Err(DsyrsError::Modbus(e)) => assert_eq!(e.kind(), std::io::ErrorKind::TimedOut),
        other => panic!("unexpected outcome {:?}", other),
    }
    assert_eq!(bus.log.len(), 1);
}

#[test]
fn exchange_reports_its_progress() {
    let mut exchange = Exchange::new(ops::set_gear_ratio(1, 2));
    assert!(!exchange.is_finished());
    exchange.complete(Ok(Vec::new()));
    assert!(!exchange.is_finished());
    assert_eq!(
        exchange.pending(),
        Some(&Command::WriteRegisters(registers::P04_GEAR1_DENOMINATOR, vec![0, 2]))
    );
    exchange.complete(Ok(Vec::new()));
    assert!(exchange.is_finished());
    assert_eq!(exchange.pending(), None);
    assert_eq!(exchange.outcome().unwrap(), Vec::<Vec<u16>>::new());
}

#[test]
fn servo_config_builders() {
    let config = ServoConfig::new(5)
        .with_control_mode(ControlMode::Torque)
        .with_direction(Direction::CwForward)
        .with_max_speed(1200)
        .with_motor_model_code(0x42)
        .with_rated_current(250)
        .with_encoder_type(EncoderType::Line2500)
        .with_encoder_resolution(10000);
    assert_eq!(config.slave_id, 5);
    assert_eq!(config.control_mode, ControlMode::Torque);
    assert_eq!(config.direction, Direction::CwForward);
    assert_eq!(config.max_speed, 1200);
    assert_eq!(config.motor_model_code, Some(0x42));
    assert_eq!(config.rated_current, Some(250));
    assert_eq!(config.encoder_type, Some(EncoderType::Line2500));
    assert_eq!(config.encoder_resolution, Some(10000));
}
