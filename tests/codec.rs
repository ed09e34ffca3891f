use helium_console::client::validate_api_key;
use helium_console::codec::{validate_base64, validate_hex, InvalidFormat};
use helium_console::{validate_uuid_input, Device, Error};

#[test]
fn validate_hex_accepts_exact_length() {
    assert_eq!(validate_hex("0000000100000046", 8), Ok(()));
    assert_eq!(validate_hex("CB67C92DD5898D07872224202DED7E76", 16), Ok(()));
}

#[test]
fn validate_hex_rejects_wrong_length() {
    assert_eq!(validate_hex("0000000100000046", 7), Err(InvalidFormat));
    assert_eq!(validate_hex("0000000100000046", 9), Err(InvalidFormat));
}

#[test]
fn validate_hex_rejects_odd_digit_count() {
    assert_eq!(validate_hex("123", 1), Err(InvalidFormat));
    assert_eq!(validate_hex("123", 2), Err(InvalidFormat));
}

#[test]
fn validate_hex_rejects_non_hex_characters() {
    assert_eq!(validate_hex("zz", 1), Err(InvalidFormat));
    assert_eq!(validate_hex("00 1", 2), Err(InvalidFormat));
    assert_eq!(validate_hex("é0", 1), Err(InvalidFormat));
}

#[test]
fn validate_hex_empty_is_zero_bytes() {
    assert_eq!(validate_hex("", 0), Ok(()));
    assert_eq!(validate_hex("", 1), Err(InvalidFormat));
}

#[test]
fn validate_hex_accepts_mixed_case() {
    assert_eq!(validate_hex("aBcDeF01", 4), Ok(()));
}

#[test]
fn validate_hex_matches_decoded_length_for_random_bytes() {
    for n in 0..=32usize {
        let bytes: Vec<u8> = (0..n).map(|_| rand::random::<u8>()).collect();
        let text = hex::encode(&bytes);
        assert_eq!(validate_hex(&text, n), Ok(()));
        assert_eq!(validate_hex(&text, n + 1), Err(InvalidFormat));
        if n > 0 {
            assert_eq!(validate_hex(&text, n - 1), Err(InvalidFormat));
            assert_eq!(validate_hex(&text[1..], n), Err(InvalidFormat));
        }
    }
}

#[test]
fn random_credentials_are_valid_hex() {
    let dev_eui = Device::random_dev_eui();
    let app_key = Device::random_app_key();
    assert_eq!(dev_eui.len(), 16);
    assert_eq!(app_key.len(), 32);
    assert_eq!(validate_hex(&dev_eui, 8), Ok(()));
    assert_eq!(validate_hex(&app_key, 16), Ok(()));
    assert!(dev_eui.chars().all(|c| c.is_ascii_digit() || ('a'..='f').contains(&c)));
}

#[test]
fn validate_base64_checks_decoded_length() {
    assert_eq!(validate_base64("aGVsbG8gd29ybGQ=", 11), Ok(()));
    assert_eq!(validate_base64("aGVsbG8gd29ybGQ=", 12), Err(InvalidFormat));
    assert_eq!(validate_base64("not base64!", 8), Err(InvalidFormat));
}

#[test]
fn api_key_must_be_thirty_two_bytes() {
    let good = base64::encode([7u8; 32]);
    let short = base64::encode([7u8; 31]);
    assert_eq!(validate_api_key(&good), Ok(()));
    assert_eq!(validate_api_key(&short), Err(Error::InvalidApiKey));
    assert_eq!(validate_api_key("%%%"), Err(Error::InvalidApiKey));
}

#[test]
fn uuid_input_is_checked() {
    assert_eq!(validate_uuid_input("00000000-0000-0000-0000-000000000000"), Ok(()));
    assert_eq!(validate_uuid_input("6c3e9a4c-1b7d-4f7e-9a57-2b1f0f3d2e11"), Ok(()));
    assert_eq!(validate_uuid_input("not-a-uuid"), Err(Error::InvalidUuid));
    assert_eq!(validate_uuid_input(""), Err(Error::InvalidUuid));
}
