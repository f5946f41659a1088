use validator_keygen::decimal::u64_to_dec;
use validator_keygen::hexfmt::pubkey_hex;
use validator_keygen::manifest::manifest_file_name;

#[test]
fn pubkey_hex_known_bytes() {
    assert_eq!(pubkey_hex(&[0x01, 0xab, 0xff]), "0x01abff");
}

#[test]
fn pubkey_hex_empty_input() {
    assert_eq!(pubkey_hex(&[]), "0x");
}

#[test]
fn pubkey_hex_leading_zero_byte() {
    assert_eq!(pubkey_hex(&[0x00, 0x10]), "0x0010");
}

#[test]
fn pubkey_hex_matches_hex_crate() {
    let bytes = [0xdeu8, 0xad, 0xbe, 0xef, 0x00, 0x7f];
    let expected = format!("0x{}", hex::encode(bytes));
    assert_eq!(pubkey_hex(&bytes), expected);
}

#[test]
fn decimal_zero() {
    assert_eq!(u64_to_dec(0), "0");
}

#[test]
fn decimal_single_digit() {
    assert_eq!(u64_to_dec(7), "7");
}

#[test]
fn decimal_multi_digit() {
    assert_eq!(u64_to_dec(305), "305");
}

#[test]
fn decimal_u64_max() {
    assert_eq!(u64_to_dec(u64::MAX), "18446744073709551615");
}

#[test]
fn manifest_file_name_is_fixed() {
    assert_eq!(manifest_file_name(), "validator-keys-manifest.yaml");
}
