use ds323x::bcd::{decimal_to_packed_bcd, packed_bcd_to_decimal};
use ds323x::hours::{hours_from_register, hours_to_register, is_24h_format, is_am};
use ds323x::{Error, Hours};

#[test]
fn bcd_encoding() {
    assert_eq!(decimal_to_packed_bcd(0), 0x00);
    assert_eq!(decimal_to_packed_bcd(9), 0x09);
    assert_eq!(decimal_to_packed_bcd(10), 0x10);
    assert_eq!(decimal_to_packed_bcd(59), 0x59);
    assert_eq!(decimal_to_packed_bcd(99), 0x99);
}

#[test]
fn bcd_decoding() {
    assert_eq!(packed_bcd_to_decimal(0x00), 0);
    assert_eq!(packed_bcd_to_decimal(0x31), 31);
    assert_eq!(packed_bcd_to_decimal(0x99), 99);
    assert_eq!(packed_bcd_to_decimal(0xFF), 165);
}

#[test]
fn bcd_round_trip_all_two_digit_numbers() {
    for d in 0..=99u8 {
        assert_eq!(packed_bcd_to_decimal(decimal_to_packed_bcd(d)), d);
    }
}

#[test]
fn hours_encoding() {
    assert_eq!(hours_to_register::<()>(Hours::H24(0)), Ok(0x00));
    assert_eq!(hours_to_register::<()>(Hours::H24(23)), Ok(0x23));
    assert_eq!(hours_to_register::<()>(Hours::AM(12)), Ok(0x52));
    assert_eq!(hours_to_register::<()>(Hours::AM(1)), Ok(0x41));
    assert_eq!(hours_to_register::<()>(Hours::PM(3)), Ok(0x63));
    assert_eq!(hours_to_register::<()>(Hours::PM(12)), Ok(0x72));
}

#[test]
fn hours_encoding_out_of_range() {
    assert_eq!(hours_to_register::<()>(Hours::H24(24)), Err(Error::InvalidInputData));
    assert_eq!(hours_to_register::<()>(Hours::AM(0)), Err(Error::InvalidInputData));
    assert_eq!(hours_to_register::<()>(Hours::AM(13)), Err(Error::InvalidInputData));
    assert_eq!(hours_to_register::<()>(Hours::PM(0)), Err(Error::InvalidInputData));
    assert_eq!(hours_to_register::<()>(Hours::PM(13)), Err(Error::InvalidInputData));
}

#[test]
fn hours_decoding() {
    assert_eq!(hours_from_register(0x23), Hours::H24(23));
    assert_eq!(hours_from_register(0x52), Hours::AM(12));
    assert_eq!(hours_from_register(0x63), Hours::PM(3));
    assert!(is_24h_format(0x23));
    assert!(!is_24h_format(0x52));
    assert!(is_am(0x52));
    assert!(!is_am(0x63));
}

#[test]
fn hours_round_trip() {
    for h in 0..=23u8 {
        let reg = hours_to_register::<()>(Hours::H24(h)).unwrap();
        assert_eq!(hours_from_register(reg), Hours::H24(h));
    }
    for h in 1..=12u8 {
        let reg = hours_to_register::<()>(Hours::AM(h)).unwrap();
        assert_eq!(hours_from_register(reg), Hours::AM(h));
        let reg = hours_to_register::<()>(Hours::PM(h)).unwrap();
        assert_eq!(hours_from_register(reg), Hours::PM(h));
    }
}
