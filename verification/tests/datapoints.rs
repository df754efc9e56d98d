use rknx::errors::KnxError;
use rknx::protocol::data::knx_data_decode::{DptValue, KnxDataDecode};
use rknx::protocol::data::knx_data_encode::KnxDataEncoder;

#[test]
fn type_numbers_read_main_and_sub() {
    assert_eq!(KnxDataDecode::get_dpt_number("1.001"), Some(1001));
    assert_eq!(KnxDataDecode::get_dpt_number("9"), Some(9));
    assert_eq!(KnxDataDecode::get_dpt_number("x.1"), None);
    assert_eq!(KnxDataDecode::fallback_dpt(1001), 1);
    assert_eq!(KnxDataDecode::fallback_dpt(5001), 5001);
    assert_eq!(KnxDataDecode::fallback_dpt(9004), 9);
}

#[test]
fn booleans_and_octets_decode() {
    assert_eq!(KnxDataDecode::decode_this("1.001", &[0x01]), Ok(DptValue::Dpt1(true)));
    assert_eq!(KnxDataDecode::decode_this("1.001", &[0x40]), Ok(DptValue::Dpt1(false)));
    assert_eq!(KnxDataDecode::decode_this("5.010", &[200]), Ok(DptValue::Dpt5(200)));
    assert_eq!(KnxDataDecode::decode_this("5.001", &[128]), Ok(DptValue::Dpt5001(128)));
    assert_eq!(KnxDataDecode::decode_this("6.010", &[0xFF]), Ok(DptValue::Dpt6010("-1 counter pulses".to_string())));
}

#[test]
fn multi_octet_values_decode_big_endian() {
    assert_eq!(KnxDataDecode::decode_this("7.000", &[0x01, 0x02]), Ok(DptValue::Dpt7(258)));
    assert_eq!(KnxDataDecode::decode_this("7.001", &[0x00, 0x0A]), Ok(DptValue::Dpt7Suffix("10pulses".to_string())));
    assert_eq!(KnxDataDecode::decode_this("8.001", &[0xFF, 0xFE]), Ok(DptValue::Dpt8(-2)));
    assert_eq!(KnxDataDecode::decode_this("9.001", &[0x0C, 0x1A]), Ok(DptValue::Dpt9(0x0C1A)));
    assert_eq!(KnxDataDecode::decode_this("12.001", &[0, 0, 1, 0]), Ok(DptValue::Dpt12(256)));
    assert_eq!(KnxDataDecode::decode_this("13.001", &[0xFF, 0xFF, 0xFF, 0xFF]), Ok(DptValue::Dpt13(-1)));
    assert_eq!(KnxDataDecode::decode_this("14.000", &[0x3F, 0x80, 0, 0]), Ok(DptValue::Dpt14(0x3F80_0000)));
    assert_eq!(KnxDataDecode::decode_this("16.000", &[b'H', b'i', 0, 0]), Ok(DptValue::Dpt16("Hi".to_string())));
}

#[test]
fn decoding_errors() {
    assert_eq!(KnxDataDecode::decode_this("nope", &[1]), Err(KnxError::DPTNotFound));
    assert_eq!(KnxDataDecode::decode_this("12.001", &[1, 2]), Err(KnxError::InvalidParametersForDpt));
    assert_eq!(KnxDataDecode::decode_this("1.001", &[]), Err(KnxError::InvalidParametersForDpt));
    assert_eq!(KnxDataDecode::decode_this("9.001", &[0x7F, 0xFF]), Err(KnxError::InvalidParametersForDpt));
    assert!(!KnxDataDecode::can_decode("7.001", &[1]));
    assert!(KnxDataDecode::can_decode("7.001", &[1, 2]));
    assert!(!KnxDataDecode::can_decode("5000000.1", &[1]));
}

#[test]
fn values_encode() {
    assert_eq!(KnxDataEncoder::encode_this("1.001", &DptValue::Dpt1(true)), Ok(vec![1]));
    assert_eq!(KnxDataEncoder::encode_this("5.010", &DptValue::Dpt5(7)), Ok(vec![7]));
    assert_eq!(KnxDataEncoder::encode_this("7.000", &DptValue::Dpt7(0x1234)), Ok(vec![0x12, 0x34]));
    assert_eq!(KnxDataEncoder::encode_this("13.001", &DptValue::Dpt13(-1)), Ok(vec![0xFF, 0xFF, 0xFF, 0xFF]));
    assert_eq!(KnxDataEncoder::encode_this("1.001", &DptValue::Dpt5(7)), Err(KnxError::InvalidParametersForDpt));
    assert_eq!(KnxDataEncoder::encode_this("zz", &DptValue::Dpt5(7)), Err(KnxError::DPTNotFound));
    assert!(KnxDataEncoder::is_short_dpt("1.001"));
    assert!(KnxDataEncoder::is_short_dpt("3.007"));
    assert!(!KnxDataEncoder::is_short_dpt("5.001"));
}

#[test]
fn encoded_values_decode_back() {
    for v in [0u16, 1, 0x1234, 0xFFFF] {
        let b = KnxDataEncoder::encode_this("7.000", &DptValue::Dpt7(v)).unwrap();
        assert_eq!(KnxDataDecode::decode_this("7.000", &b), Ok(DptValue::Dpt7(v)));
    }
    for v in [i32::MIN, -5, 0, 77, i32::MAX] {
        let b = KnxDataEncoder::encode_this("13.001", &DptValue::Dpt13(v)).unwrap();
        assert_eq!(KnxDataDecode::decode_this("13.001", &b), Ok(DptValue::Dpt13(v)));
    }
}
