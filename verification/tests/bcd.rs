use pcf8563::{decode_bcd, encode_bcd};

#[test]
fn can_convert_decode_bcd() {
    assert_eq!(0, decode_bcd(0b0000_0000));
    assert_eq!(1, decode_bcd(0b0000_0001));
    assert_eq!(9, decode_bcd(0b0000_1001));
    assert_eq!(10, decode_bcd(0b0001_0000));
    assert_eq!(11, decode_bcd(0b0001_0001));
    assert_eq!(19, decode_bcd(0b0001_1001));
    assert_eq!(20, decode_bcd(0b0010_0000));
    assert_eq!(21, decode_bcd(0b0010_0001));
    assert_eq!(59, decode_bcd(0b0101_1001));
}

#[test]
fn can_convert_encode_bcd() {
    assert_eq!(0b0000_0000, encode_bcd(0));
    assert_eq!(0b0000_0001, encode_bcd(1));
    assert_eq!(0b0000_1001, encode_bcd(9));
    assert_eq!(0b0001_0000, encode_bcd(10));
    assert_eq!(0b0001_0001, encode_bcd(11));
    assert_eq!(0b0001_1001, encode_bcd(19));
    assert_eq!(0b0010_0000, encode_bcd(20));
    assert_eq!(0b0010_0001, encode_bcd(21));
    assert_eq!(0b0101_1001, encode_bcd(59));
}

#[test]
fn decode_then_encode_restores_valid_bcd_bytes() {
    for tens in 0u8..=5 {
        for ones in 0u8..=9 {
            let b = (tens << 4) | ones;
            assert_eq!(b, encode_bcd(decode_bcd(b)));
        }
    }
}

#[test]
fn encode_then_decode_restores_values_up_to_59() {
    for n in 0u8..=59 {
        assert_eq!(n, decode_bcd(encode_bcd(n)));
    }
}
