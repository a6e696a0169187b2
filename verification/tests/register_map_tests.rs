use em2rs::registers::{get_path_base, input_register, SI1};
use em2rs::types::Em2rsError;

#[test]
fn path_base_lookup_returns_the_documented_addresses() {
    assert_eq!(get_path_base(0), Some(0x6200));
    assert_eq!(get_path_base(1), Some(0x6208));
    assert_eq!(get_path_base(2), Some(0x6210));
    assert_eq!(get_path_base(3), Some(0x6218));
    assert_eq!(get_path_base(4), Some(0x6220));
    assert_eq!(get_path_base(5), Some(0x6228));
    assert_eq!(get_path_base(6), Some(0x6230));
    assert_eq!(get_path_base(7), Some(0x6238));
    assert_eq!(get_path_base(8), Some(0x6240));
}

#[test]
fn path_base_lookup_fails_for_every_id_above_8() {
    for id in 9..=255u8 {
        assert_eq!(get_path_base(id), None);
    }
}

#[test]
fn input_numbers_1_to_7_map_to_si_registers_two_apart() {
    for n in 1..=7u8 {
        assert_eq!(input_register(n), Ok(SI1 + (n as u16 - 1) * 2));
    }
    assert_eq!(input_register(1), Ok(0x0145));
    assert_eq!(input_register(7), Ok(0x0151));
}

#[test]
fn input_number_0_and_8_or_more_fail_validation() {
    assert_eq!(input_register(0), Err(Em2rsError::InvalidDigitalInput(0)));
    for n in 8..=255u8 {
        assert_eq!(input_register(n), Err(Em2rsError::InvalidDigitalInput(n)));
    }
}
