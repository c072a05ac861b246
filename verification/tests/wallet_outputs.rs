use std::str::FromStr;

use keystretch::derive::{derive_bitcoin_wif, derive_hd_wallet, derive_raw_secret};

const CODE: &str = "abcdefghijkmnopqr";
const PASSWORD: &str = "password";

fn hex_to_bytes(s: &str) -> Vec<u8> {
    assert!(s.len() % 2 == 0);
    let digits: Vec<u8> = s
        .bytes()
        .map(|b| match b {
            b'0'..=b'9' => b - b'0',
            b'a'..=b'f' => b - b'a' + 10,
            _ => panic!("not a lowercase hex digit: {}", b as char),
        })
        .collect();
    digits.chunks(2).map(|p| p[0] * 16 + p[1]).collect()
}

#[test]
fn wif_round_trip_recovers_the_scalar() {
    let wif = derive_bitcoin_wif(CODE, PASSWORD).unwrap();
    let raw = hex_to_bytes(&derive_raw_secret(CODE, PASSWORD).unwrap());
    let key = bitcoin::PrivateKey::from_wif(&wif).unwrap();
    assert!(key.compressed);
    assert!(key.network.is_mainnet());
    assert_eq!(key.inner.secret_bytes().to_vec(), raw);
}

#[test]
fn wif_starts_with_mainnet_compressed_prefix() {
    // A mainnet WIF of a compressed key is 52 Base58 characters starting
    // with 'K' or 'L'.
    let wif = derive_bitcoin_wif(CODE, PASSWORD).unwrap();
    assert_eq!(wif.len(), 52);
    assert!(wif.starts_with('K') || wif.starts_with('L'));
}

#[test]
fn mnemonic_is_checksum_valid_english() {
    let (_, phrase) = derive_hd_wallet(CODE, PASSWORD).unwrap();
    let words: Vec<&str> = phrase.split(' ').collect();
    assert_eq!(words.len(), 12);
    // Parsing validates every word against the English list and checks the
    // embedded checksum.
    let parsed = bip39::Mnemonic::parse_in_normalized(bip39::Language::English, &phrase).unwrap();
    assert_eq!(parsed.word_count(), 12);
    for word in words {
        assert!(bip39::Language::English.word_list().contains(&word));
    }
}

#[test]
fn xprv_parses_as_mainnet_master_key() {
    let (xprv, _) = derive_hd_wallet(CODE, PASSWORD).unwrap();
    assert!(xprv.starts_with("xprv"));
    let parsed = bitcoin::bip32::Xpriv::from_str(&xprv).unwrap();
    assert_eq!(parsed.depth, 0);
    assert!(parsed.network.is_mainnet());
}

#[test]
fn xprv_comes_from_the_mnemonic_seed() {
    let (xprv, phrase) = derive_hd_wallet(CODE, PASSWORD).unwrap();
    let mnemonic = bip39::Mnemonic::parse_in_normalized(bip39::Language::English, &phrase).unwrap();
    let seed = mnemonic.to_seed("");
    let master = bitcoin::bip32::Xpriv::new_master(bitcoin::Network::Bitcoin, &seed).unwrap();
    assert_eq!(master.to_string(), xprv);
}

#[test]
fn wallet_entropy_is_the_leading_raw_secret_bytes() {
    // Cross-operation consistency: the mnemonic's entropy is the first 16
    // bytes of the secret that derive_raw_secret reports, and the WIF key is
    // all 32 of them.
    let raw = hex_to_bytes(&derive_raw_secret(CODE, PASSWORD).unwrap());
    let (_, phrase) = derive_hd_wallet(CODE, PASSWORD).unwrap();
    let mnemonic = bip39::Mnemonic::parse_in_normalized(bip39::Language::English, &phrase).unwrap();
    assert_eq!(mnemonic.to_entropy(), raw[..16].to_vec());
}

#[test]
fn example_scenario_is_reproducible() {
    // code of 17 Base58 characters, password of 8: the raw secret is one
    // fixed 64-character hex string, and the mnemonic maps back to itself
    // through its entropy.
    let first = derive_raw_secret(CODE, PASSWORD).unwrap();
    let second = derive_raw_secret(CODE, PASSWORD).unwrap();
    assert_eq!(first.len(), 64);
    assert_eq!(first, second);

    let (_, phrase) = derive_hd_wallet(CODE, PASSWORD).unwrap();
    let mnemonic = bip39::Mnemonic::parse_in_normalized(bip39::Language::English, &phrase).unwrap();
    let entropy = mnemonic.to_entropy();
    let again = bip39::Mnemonic::from_entropy_in(bip39::Language::English, &entropy).unwrap();
    assert_eq!(again.to_string(), phrase);
}
