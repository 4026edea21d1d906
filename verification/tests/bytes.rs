use arbitrator::bytes::{be_u32_bytes, hex_decode, hex_encode, Bytes20, Bytes32};

#[test]
fn bytes32_from_u64_is_big_endian() {
    let word = Bytes32::from(1234u64);
    let mut expected = [0u8; 32];
    expected[30] = 0x04;
    expected[31] = 0xd2;
    assert_eq!(word.0, expected);
    assert_eq!(word.to_hex(), format!("{}04d2", "00".repeat(30)));
    assert_eq!(Bytes32::from(999u32), Bytes32::from(999u64));
}

#[test]
fn bytes20_from_u32_is_big_endian() {
    let address = Bytes20::from(0x01020304u32);
    let mut expected = [0u8; 20];
    expected[16..].copy_from_slice(&[1, 2, 3, 4]);
    assert_eq!(address.0, expected);
    assert_eq!(address.to_hex(), format!("{}01020304", "00".repeat(16)));
}

#[test]
fn zero_word() {
    assert!(Bytes32::zero().is_zero());
    assert!(!Bytes32::from(1u64).is_zero());
    assert_eq!(Bytes32::zero(), Bytes32::default());
}

#[test]
fn hex_round_trip() {
    assert_eq!(hex_encode(&[0xde, 0xad, 0xbe, 0xef]), "deadbeef");
    assert_eq!(hex_decode("DEADbeef"), Some(vec![0xde, 0xad, 0xbe, 0xef]));
    assert_eq!(hex_decode(""), Some(vec![]));
    assert_eq!(hex_decode("abc"), None);
    assert_eq!(hex_decode("zz"), None);
    let data = vec![0u8, 1, 127, 128, 255];
    assert_eq!(hex_decode(&hex_encode(&data)), Some(data));
}

#[test]
fn be_u32() {
    assert_eq!(be_u32_bytes(0x01020304), vec![1, 2, 3, 4]);
    assert_eq!(be_u32_bytes(56), vec![0, 0, 0, 56]);
}
