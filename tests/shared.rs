#[test]
fn assert_twos_complement() {
    assert_eq!((-128_i8) as u8, 128_u8);

    assert_eq!(255_u8 as i8, -1_i8);
}

#[test]
fn assert_sign_extend() {
    assert_eq!((1_i8 as i16) as u16, 1_u16);

    assert_eq!((-128_i8 as i16) as u16, 0xff80_u16);
}
