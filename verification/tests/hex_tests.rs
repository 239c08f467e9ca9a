use beacon_verify::hex_codec::decode_hex_fixed;
use beacon_verify::hex_codec::encode_hex;
use beacon_verify::DrandError;

#[test]
fn round_trip_32_bytes() {
    let bytes: Vec<u8> = (0u8..32).collect();
    let s = encode_hex(&bytes);
    let back = decode_hex_fixed::<32>(&s).unwrap();
    assert_eq!(back.to_vec(), bytes);
}

#[test]
fn round_trip_48_bytes() {
    let bytes: Vec<u8> = (0..48).map(|i| (i * 5 + 3) as u8).collect();
    let s = encode_hex(&bytes);
    let back = decode_hex_fixed::<48>(&s).unwrap();
    assert_eq!(back.to_vec(), bytes);
}

#[test]
fn round_trip_96_bytes() {
    let bytes: Vec<u8> = (0..96).map(|i| (i * 37 % 256) as u8).collect();
    let s = encode_hex(&bytes);
    let back = decode_hex_fixed::<96>(&s).unwrap();
    assert_eq!(back.to_vec(), bytes);
}

#[test]
fn encode_matches_hex_crate() {
    let bytes: Vec<u8> = vec![0x00, 0x01, 0x0a, 0x7f, 0x80, 0xab, 0xff];
    assert_eq!(encode_hex(&bytes), hex::encode(&bytes));
}

#[test]
fn decode_matches_hex_crate() {
    let s = "deadBEEF";
    let ours = decode_hex_fixed::<4>(s).unwrap();
    let theirs = hex::decode(s).unwrap();
    assert_eq!(ours.to_vec(), theirs);
}

#[test]
fn decode_is_case_insensitive() {
    let lower = decode_hex_fixed::<4>("deadbeef").unwrap();
    let upper = decode_hex_fixed::<4>("DEADBEEF").unwrap();
    assert_eq!(lower, upper);
    assert_eq!(lower.to_vec(), vec![0xde, 0xad, 0xbe, 0xef]);
}

#[test]
fn wrong_length_fails() {
    // 62 characters: one byte short of 32.
    let s = "00".repeat(31);
    assert_eq!(decode_hex_fixed::<32>(&s), Err(DrandError::Decoding));
}

#[test]
fn too_long_fails() {
    let s = "00".repeat(33);
    assert_eq!(decode_hex_fixed::<32>(&s), Err(DrandError::Decoding));
}

#[test]
fn odd_length_fails() {
    let s = "0".repeat(63);
    assert_eq!(decode_hex_fixed::<32>(&s), Err(DrandError::Decoding));
}

#[test]
fn empty_string_fails() {
    assert_eq!(decode_hex_fixed::<32>(""), Err(DrandError::Decoding));
}

#[test]
fn bad_character_fails() {
    let mut s = "00".repeat(32);
    s.replace_range(10..11, "g");
    assert_eq!(decode_hex_fixed::<32>(&s), Err(DrandError::Decoding));
}
