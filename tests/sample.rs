use ads1220::driver::ADS1220;
use ads1220::sample::decode_sample;

#[test]
fn decode_zero() {
    assert_eq!(decode_sample([0x00, 0x00, 0x00]), 0);
}

#[test]
fn decode_largest_positive() {
    assert_eq!(decode_sample([0x7F, 0xFF, 0xFF]), 8388607);
}

#[test]
fn decode_most_negative() {
    assert_eq!(decode_sample([0x80, 0x00, 0x00]), -8388608);
}

#[test]
fn decode_minus_one() {
    assert_eq!(decode_sample([0xFF, 0xFF, 0xFF]), -1);
}

#[test]
fn decode_mixed_bytes() {
    assert_eq!(decode_sample([0x12, 0x34, 0x56]), 0x123456);
    assert_eq!(decode_sample([0xFE, 0xDC, 0xBA]), 0xFEDCBA - 0x1000000);
}

#[test]
fn data_to_int_matches_decoder() {
    let adc = ADS1220::new();
    assert_eq!(adc.data_to_int([0x80, 0x00, 0x01]), -8388607);
    assert_eq!(adc.data_to_int([0x00, 0x01, 0x00]), 256);
}
