use dsyrs::types::{
    BaudRate, ControlMode, DiFunction, DoFunction, EncoderType, HomingEnableMode, HomingMode,
    PositionCmdSource, RegisterEnum, ServoState,
};
use dsyrs::words::{
    i16_from_raw, i16_to_raw, i32_from_bits, i32_to_bits, join_u32, split_u32,
};

#[test]
fn i32_round_trip_through_two_registers() {
    for v in [i32::MIN, -1, 0, 1, 123_456_789, -65536, 65535, i32::MAX] {
        let (high, low) = split_u32(i32_to_bits(v));
        assert_eq!(i32_from_bits(join_u32(high, low)), v);
    }
}

#[test]
fn i32_encoding_is_twos_complement_high_word_first() {
    assert_eq!(split_u32(i32_to_bits(-1)), (0xFFFF, 0xFFFF));
    assert_eq!(split_u32(i32_to_bits(i32::MIN)), (0x8000, 0x0000));
    assert_eq!(split_u32(i32_to_bits(i32::MAX)), (0x7FFF, 0xFFFF));
    assert_eq!(split_u32(0x1234_5678), (0x1234, 0x5678));
    assert_eq!(join_u32(0x0001, 0x0002), 0x0001_0002);
}

#[test]
fn i16_words_round_trip() {
    assert_eq!(i16_to_raw(-1), 0xFFFF);
    assert_eq!(i16_to_raw(-9000), 56536);
    assert_eq!(i16_from_raw(0x8000), i16::MIN);
    for v in [i16::MIN, -1, 0, 1, i16::MAX] {
        assert_eq!(i16_from_raw(i16_to_raw(v)), v);
    }
}

#[test]
fn enum_round_trip_and_rejection() {
    for mode in [ControlMode::Position, ControlMode::Speed, ControlMode::Torque] {
        assert_eq!(ControlMode::from_raw(mode.to_raw()), Some(mode));
    }
    assert_eq!(ControlMode::Torque.to_raw(), 2);
    assert_eq!(ControlMode::from_raw(3), None);
    assert_eq!(PositionCmdSource::from_raw(3), None);
    assert_eq!(PositionCmdSource::from_raw(4), Some(PositionCmdSource::MultiSegment));
    assert_eq!(PositionCmdSource::Communication.to_raw(), 5);
    assert_eq!(HomingMode::from_raw(17), Some(HomingMode::Mode17));
    assert_eq!(HomingMode::from_raw(18), None);
    assert_eq!(HomingEnableMode::from_raw(6), Some(HomingEnableMode::HostComputer));
    assert_eq!(HomingEnableMode::from_raw(7), None);
    assert_eq!(DiFunction::from_raw(41), Some(DiFunction::SpeedModeA1SW2));
    assert_eq!(DiFunction::from_raw(42), None);
    assert_eq!(DoFunction::MultiSegmentPositionCompletion4.to_raw(), 24);
    assert_eq!(EncoderType::from_raw(4), Some(EncoderType::Bit23Absolute));
}

#[test]
fn every_raw_value_decodes_to_a_variant_that_encodes_back() {
    for raw in 0..=u16::MAX {
        if let Some(v) = DiFunction::from_raw(raw) {
            assert_eq!(v.to_raw(), raw);
        } else {
            assert!(raw > 41);
        }
        if let Some(v) = BaudRate::from_raw(raw) {
            assert_eq!(v.to_raw(), raw);
        } else {
            assert!(raw > 6);
        }
    }
}

#[test]
fn baud_rates_in_bits_per_second() {
    assert_eq!(BaudRate::Baud2400.to_bps(), 2400);
    assert_eq!(BaudRate::Baud57600.to_bps(), 57600);
    assert_eq!(BaudRate::default().to_bps(), 115200);
    assert_eq!(BaudRate::Baud115200.to_raw(), 6);
}

#[test]
fn servo_state_uses_low_nibble() {
    assert_eq!(ServoState::from(0), ServoState::Ready);
    assert_eq!(ServoState::from(1), ServoState::Running);
    assert_eq!(ServoState::from(0x12), ServoState::Error);
    assert_eq!(ServoState::from(0xF3), ServoState::Alarm);
    assert_eq!(ServoState::from(4), ServoState::Unknown(4));
    assert_eq!(ServoState::from(0x1F), ServoState::Unknown(0x1F));
}
