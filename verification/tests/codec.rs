use receipt_doc::decimal::{dec_str, U256};
use receipt_doc::hexcodec::{hex_field_str, hex_str};

#[test]
fn hex_empty() {
    assert_eq!(hex_str(&[]), "");
    assert_eq!(hex_field_str(&[]), "0x");
}

#[test]
fn hex_known_bytes() {
    assert_eq!(hex_str(&[0x00, 0x01, 0xab, 0xff]), "0001abff");
    assert_eq!(hex_field_str(&[0x00, 0x01, 0xab, 0xff]), "0x0001abff");
}

#[test]
fn hex_single_byte_values() {
    assert_eq!(hex_str(&[0x00]), "00");
    assert_eq!(hex_str(&[0x0f]), "0f");
    assert_eq!(hex_str(&[0x10]), "10");
    assert_eq!(hex_str(&[0x9a]), "9a");
    assert_eq!(hex_str(&[0xff]), "ff");
}

#[test]
fn hex_preserves_leading_zero_bytes() {
    assert_eq!(hex_field_str(&[0, 0, 0, 7]), "0x00000007");
}

#[test]
fn hex_is_lowercase_and_matches_reference_encoder() {
    let samples: Vec<Vec<u8>> = vec![
        vec![],
        vec![0xde, 0xad, 0xbe, 0xef],
        (0u8..=255u8).collect(),
    ];
    for bytes in samples {
        assert_eq!(hex_str(&bytes), hex::encode(&bytes));
    }
}

#[test]
fn hex_round_trip_through_reference_decoder() {
    let bytes: Vec<u8> = (0u8..=255u8).collect();
    let encoded = hex_field_str(&bytes);
    assert_eq!(&encoded[..2], "0x");
    assert_eq!(hex::decode(&encoded[2..]).unwrap(), bytes);
}

#[test]
fn dec_zero() {
    assert_eq!(dec_str(&U256::from_u64(0)), "0");
}

#[test]
fn dec_small_values() {
    assert_eq!(dec_str(&U256::from_u64(7)), "7");
    assert_eq!(dec_str(&U256::from_u64(10)), "10");
    assert_eq!(dec_str(&U256::from_u64(12345)), "12345");
}

#[test]
fn dec_u64_max() {
    assert_eq!(dec_str(&U256::from_u64(u64::MAX)), "18446744073709551615");
}

#[test]
fn dec_beyond_64_bits() {
    // 2^64 needs the second limb.
    assert_eq!(dec_str(&U256::from_limbs(0, 1, 0, 0)), "18446744073709551616");
}

#[test]
fn dec_full_width_maximum() {
    let max = U256::from_limbs(u64::MAX, u64::MAX, u64::MAX, u64::MAX);
    assert_eq!(
        dec_str(&max),
        "115792089237316195423570985008687907853269984665640564039457584007913129639935"
    );
}

#[test]
fn dec_parses_back_exactly() {
    let v = U256::from_limbs(0, 1, 0, 0);
    let s = dec_str(&v);
    assert_eq!(s.parse::<u128>().unwrap(), 1u128 << 64);
}
