use keystretch::base58::{bytes_all_base58, validate_inputs};
use keystretch::derive::{derive_bitcoin_wif, derive_hd_wallet, derive_raw_secret};
use keystretch::errors::DeriveError;

const GOOD_CODE: &str = "abcdefghijkmnopqr";
const GOOD_PASSWORD: &str = "password";

#[test]
fn accepts_minimal_lengths() {
    assert!(validate_inputs("123456789abcdefg", "12345678"));
    assert!(validate_inputs(GOOD_CODE, GOOD_PASSWORD));
}

#[test]
fn rejects_short_code() {
    assert!(!validate_inputs("12345678summary", "12345678"));
    assert!(!validate_inputs("short", GOOD_PASSWORD));
}

#[test]
fn rejects_short_password() {
    assert!(!validate_inputs(GOOD_CODE, "1234567"));
}

#[test]
fn rejects_non_base58_characters() {
    assert!(!validate_inputs("0bcdefghijkmnopqr", GOOD_PASSWORD));
    assert!(!validate_inputs("Obcdefghijkmnopqr", GOOD_PASSWORD));
    assert!(!validate_inputs("Ibcdefghijkmnopqr", GOOD_PASSWORD));
    assert!(!validate_inputs("lbcdefghijkmnopqr", GOOD_PASSWORD));
    assert!(!validate_inputs(GOOD_CODE, "passw0rd"));
    // The letter l is excluded from the Base58 alphabet, so a code that
    // spells out the lowercase alphabet is rejected despite its length.
    assert!(!validate_inputs("abcdefghijklmnopq", GOOD_PASSWORD));
    assert!(!validate_inputs("abcdefghijkmnopq+", GOOD_PASSWORD));
}

#[test]
fn base58_check_agrees_with_bs58_decoder() {
    let samples = [
        "abcdefghijklmnopq",
        "password",
        "passw0rd",
        "1A1zP1eP5QGefi2DMPTfTL5SLmv7DivfNa",
        "0OIl",
        "with space",
        "",
        "z",
    ];
    for s in samples {
        let ours = bytes_all_base58(s.as_bytes());
        let theirs = bs58::decode(s).into_vec().is_ok();
        assert_eq!(ours, theirs, "disagreement on {:?}", s);
    }
}

#[test]
fn boundary_scenario_short_code() {
    // A five-character code is rejected by every operation, before any
    // hashing happens.
    assert_eq!(derive_raw_secret("short", GOOD_PASSWORD), Err(DeriveError::InvalidInput));
    assert_eq!(derive_bitcoin_wif("short", GOOD_PASSWORD), Err(DeriveError::InvalidInput));
    assert_eq!(derive_hd_wallet("short", GOOD_PASSWORD), Err(DeriveError::InvalidInput));
}

#[test]
fn invalid_input_error_for_bad_format() {
    assert_eq!(derive_raw_secret("0bcdefghijkmnopqr", GOOD_PASSWORD), Err(DeriveError::InvalidInput));
    assert_eq!(derive_raw_secret(GOOD_CODE, "1234567"), Err(DeriveError::InvalidInput));
}

#[test]
fn invalid_input_message_combines_both_requirements() {
    let msg = DeriveError::InvalidInput.message();
    assert_eq!(
        msg,
        "Provided code must be at least 16 characters long and password must be at least 8 characters long\nProvided code or password is not in Base58 format"
    );
    assert_eq!(DeriveError::StretchFailed.message(), "Failed to generate hash");
    assert_eq!(DeriveError::MnemonicError.message(), "Mnemonic generation error");
}
