use http2parse::wire::{encode_u24, encode_u64};
use http2parse::{ErrorCode, SizeIncrement, StreamIdentifier};

#[test]
fn test_stream_id_ignores_highest_bit() {
    let raw1 = [0x7F, 0xFF, 0xFF, 0xFF];
    let raw2 = [0xFF, 0xFF, 0xFF, 0xFF];

    assert_eq!(StreamIdentifier::parse(&raw1), StreamIdentifier::parse(&raw2));
}

#[test]
fn stream_id_encode_clears_reserved_bit() {
    let mut buf = [0u8; 6];
    assert_eq!(StreamIdentifier(0x8000_0102).encode(&mut buf), 4);
    assert_eq!(buf, [0x00, 0x00, 0x01, 0x02, 0, 0]);
    assert_eq!(StreamIdentifier::parse(&[0x01, 0x02, 0x03, 0x04]), StreamIdentifier(0x0102_0304));
}

#[test]
fn error_code_and_increment_keep_all_bits() {
    let mut buf = [0u8; 4];
    ErrorCode(0xDEAD_BEEF).encode(&mut buf);
    assert_eq!(buf, [0xDE, 0xAD, 0xBE, 0xEF]);
    assert_eq!(ErrorCode::parse(&buf), ErrorCode(0xDEAD_BEEF));
    SizeIncrement(0x8000_0001).encode(&mut buf);
    assert_eq!(buf, [0x80, 0x00, 0x00, 0x01]);
    assert_eq!(SizeIncrement::parse(&buf), SizeIncrement(0x8000_0001));
}

#[test]
fn big_endian_fields() {
    assert_eq!(ErrorCode::parse(&[0x12, 0x34, 0x56, 0x78, 0x9A]), ErrorCode(0x1234_5678));
    let mut buf = [0u8; 9];
    assert_eq!(encode_u64(&mut buf, 0x0102_0304_0506_0708), 8);
    assert_eq!(buf, [1, 2, 3, 4, 5, 6, 7, 8, 0]);
    assert_eq!(encode_u24(&mut buf, 0xAB12_3456), 3);
    assert_eq!(&buf[..3], &[0x12, 0x34, 0x56]);
}
