use patchwork_dmg::register::{EncodingError, RegPair};

#[test]
fn bcd() {
    let bcd = RegPair::decimal_to_bcd(32);
    assert_eq!(bcd, Ok(0b0011_0010));
}

#[test]
fn set_high() {
    let mut reg = RegPair::new();
    reg.set_high_bcd(32).unwrap();
    assert_eq!(reg.get_high(), 0b0011_0010);
}

#[test]
fn set_low() {
    let mut reg = RegPair::new();
    reg.set_low_bcd(32).unwrap();
    assert_eq!(reg.get_low(), 0b0011_0010);
}

#[test]
fn set_wide() {
    let mut reg = RegPair::new();
    reg.set_wide(0b0011_0101_1100_1011);
    assert_eq!(reg.get_high(), 0b0011_0101);
    assert_eq!(reg.get_low(), 0b1100_1011);
}

#[test]
fn bcd_to_decimal() {
    let dec = RegPair::bcd_to_decimal(0b0011_0010); // BCD for 32
    assert_eq!(dec, 32);
}

#[test]
fn bcd_round_trip_every_two_digit_number() {
    for d in 0u8..=99 {
        let b = RegPair::decimal_to_bcd(d).unwrap();
        assert_eq!(RegPair::bcd_to_decimal(b), d);
    }
}

#[test]
fn bcd_packs_tens_high_and_units_low() {
    assert_eq!(RegPair::decimal_to_bcd(0), Ok(0x00));
    assert_eq!(RegPair::decimal_to_bcd(9), Ok(0x09));
    assert_eq!(RegPair::decimal_to_bcd(10), Ok(0x10));
    assert_eq!(RegPair::decimal_to_bcd(99), Ok(0x99));
}

#[test]
fn bcd_rejects_three_digits() {
    assert_eq!(RegPair::decimal_to_bcd(100), Err(EncodingError { value: 100 }));
    assert_eq!(RegPair::decimal_to_bcd(255), Err(EncodingError { value: 255 }));
}

#[test]
fn bcd_write_out_of_range_leaves_register() {
    let mut reg = RegPair::new();
    reg.set_wide(0x1234);
    assert_eq!(reg.set_high_bcd(120), Err(EncodingError { value: 120 }));
    assert_eq!(reg.set_low_bcd(100), Err(EncodingError { value: 100 }));
    assert_eq!(reg.get_wide(), 0x1234);
}

#[test]
fn bcd_decode_of_nibbles_over_nine() {
    assert_eq!(RegPair::bcd_to_decimal(0xFF), 165);
    assert_eq!(RegPair::bcd_to_decimal(0x0A), 10);
}

#[test]
fn wide_write_read_halves() {
    for v in [0u16, 1, 0x00FF, 0x0100, 0xABCD, 0xFFFF] {
        let mut reg = RegPair::new();
        reg.set_wide(v);
        assert_eq!(reg.get_high() as u16, v >> 8);
        assert_eq!(reg.get_low() as u16, v & 0xFF);
        assert_eq!(reg.get_wide(), v);
    }
}

#[test]
fn raw_half_writes() {
    let mut reg = RegPair::new();
    reg.set_high_bin(0xAB);
    reg.set_low_bin(0xCD);
    assert_eq!(reg.get_wide(), 0xABCD);
}

#[test]
fn to_int_reads_both_halves_as_bcd() {
    let mut reg = RegPair::new();
    reg.set_high_bcd(12).unwrap();
    reg.set_low_bcd(34).unwrap();
    assert_eq!(reg.to_int(), 1234);
    reg.set_wide(0xFFFF);
    assert_eq!(reg.to_int(), 16665);
}
