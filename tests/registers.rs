use dsyrs::registers::{
    get_di_function_register, get_di_logic_register, get_do_function_register,
    get_do_logic_register, get_segment_accel_decel_register, get_segment_displacement_register,
    get_segment_speed_register, get_segment_wait_time_register, param_addr, P00_CONTROL_MODE,
    P00_MAX_SPEED, P02_DI1_FUNCTION, P02_DI3_LOGIC, P02_DO1_LOGIC, P02_DO2_FUNCTION,
    P13_SEG16_WAIT_TIME, P13_SEG1_DISPLACEMENT, P13_SEG1_SPEED, P13_SEG8_ACCEL_DECEL,
    P16_HOME_OFFSET, P18_SPEED_FEEDBACK,
};

#[test]
fn param_addr_is_group_times_256_plus_index() {
    assert_eq!(param_addr(18, 1), 0x1201);
    assert_eq!(param_addr(0, 0), 0);
    assert_eq!(param_addr(255, 255), 0xFFFF);
    assert_eq!(param_addr(13, 8), 13 * 256 + 8);
    for group in 0..=255u8 {
        for index in [0u8, 1, 7, 128, 255] {
            assert_eq!(param_addr(group, index) as u32, group as u32 * 256 + index as u32);
        }
    }
}

#[test]
fn named_registers_match_their_parameter_codes() {
    assert_eq!(P00_CONTROL_MODE, param_addr(0, 0));
    assert_eq!(P00_MAX_SPEED, param_addr(0, 7));
    assert_eq!(P18_SPEED_FEEDBACK, 0x1201);
    assert_eq!(P16_HOME_OFFSET, param_addr(16, 14));
}

#[test]
fn segment_lookup_covers_exactly_one_to_sixteen() {
    assert_eq!(get_segment_displacement_register(0), None);
    assert_eq!(get_segment_displacement_register(17), None);
    assert_eq!(get_segment_speed_register(0), None);
    assert_eq!(get_segment_wait_time_register(17), None);
    assert_eq!(get_segment_accel_decel_register(255), None);
    let first = get_segment_displacement_register(1).unwrap();
    let last = get_segment_displacement_register(16).unwrap();
    assert_ne!(first, last);
    assert_eq!(first, P13_SEG1_DISPLACEMENT);
    assert_eq!(get_segment_speed_register(1), Some(P13_SEG1_SPEED));
    assert_eq!(get_segment_accel_decel_register(8), Some(P13_SEG8_ACCEL_DECEL));
    assert_eq!(get_segment_wait_time_register(16), Some(P13_SEG16_WAIT_TIME));
}

#[test]
fn segment_registers_never_overlap() {
    let mut seen = std::collections::HashSet::new();
    for segment in 1..=16u8 {
        let disp = get_segment_displacement_register(segment).unwrap();
        assert!(seen.insert(disp));
        assert!(seen.insert(disp + 1));
        assert!(seen.insert(get_segment_speed_register(segment).unwrap()));
        assert!(seen.insert(get_segment_accel_decel_register(segment).unwrap()));
        assert!(seen.insert(get_segment_wait_time_register(segment).unwrap()));
    }
    assert_eq!(seen.len(), 16 * 5);
}

#[test]
fn digital_io_lookup_ranges() {
    assert_eq!(get_di_function_register(0), None);
    assert_eq!(get_di_function_register(1), Some(P02_DI1_FUNCTION));
    assert_eq!(get_di_function_register(4), None);
    assert_eq!(get_di_logic_register(3), Some(P02_DI3_LOGIC));
    assert_eq!(get_di_logic_register(4), None);
    assert_eq!(get_do_function_register(2), Some(P02_DO2_FUNCTION));
    assert_eq!(get_do_function_register(3), None);
    assert_eq!(get_do_logic_register(1), Some(P02_DO1_LOGIC));
    assert_eq!(get_do_logic_register(0), None);
    assert_ne!(get_di_function_register(1), get_di_function_register(2));
}
