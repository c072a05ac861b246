use vstd::prelude::*;
use crate::scalar::is_valid_scalar;

verus! {

/// The mainnet, compressed-flag wallet import format encoding of a valid
/// 32-byte secp256k1 private key. Computed by the `bitcoin` crate; a
/// function of the key bytes alone, since network and compression are fixed.
pub uninterp spec fn wif_of(key: Seq<u8>) -> Seq<char>;

/// The 12-word English BIP39 mnemonic phrase of 16 bytes of entropy, the
/// words joined by single spaces. Computed by the `bip39` crate; a function
/// of the entropy alone.
pub uninterp spec fn mnemonic_of(entropy: Seq<u8>) -> Seq<char>;

/// The 64-byte BIP39 seed of a mnemonic phrase with the empty passphrase.
/// Computed by the `bip39` crate; a function of the phrase alone.
pub uninterp spec fn seed_of(phrase: Seq<char>) -> Seq<u8>;

/// The serialized BIP32 mainnet master extended private key of a seed.
/// Computed by the `bitcoin` crate; a function of the seed alone.
pub uninterp spec fn xprv_of(seed: Seq<u8>) -> Seq<char>;

/// Relies on `bitcoin::PrivateKey::from_slice` with `Network::Bitcoin`
/// followed by `to_wif`: the constructor marks the key compressed and fails
/// exactly when the slice is not 32 bytes encoding a value in
/// [1, order - 1]; the encoding is determined by the key bytes alone.
#[verifier::external_body]
pub(crate) fn wif_from_key(key: &[u8]) -> (r: Option<String>)
    ensures
        r is Some <==> is_valid_scalar(key@),
        r matches Some(s) ==> s@ == wif_of(key@),
{
    match bitcoin::PrivateKey::from_slice(key, bitcoin::Network::Bitcoin) {
        Ok(k) => Some(k.to_wif()),
        Err(_) => None,
    }
}

/// Relies on `bip39::Mnemonic::from_entropy_in` with `Language::English`,
/// rendered through its `Display`: it fails only on an entropy length that
/// is not a multiple of 4 bytes between 16 and 32, and the phrase is
/// determined by the entropy alone.
#[verifier::external_body]
pub(crate) fn mnemonic_from_entropy(entropy: &[u8]) -> (r: Option<String>)
    ensures
        entropy@.len() == 16 ==> r is Some,
        r matches Some(s) ==> s@ == mnemonic_of(entropy@),
{
    match bip39::Mnemonic::from_entropy_in(bip39::Language::English, entropy) {
        Ok(m) => Some(m.to_string()),
        Err(_) => None,
    }
}

/// Relies on `bip39::Mnemonic::parse_in_normalized` with
/// `Language::English` followed by `to_seed` with the empty passphrase:
/// parsing succeeds on any phrase that `from_entropy_in` produced, and the
/// 64-byte seed is determined by the phrase alone.
#[verifier::external_body]
pub(crate) fn seed_from_phrase(phrase: &str) -> (r: Option<Vec<u8>>)
    ensures
        (exists|e: Seq<u8>| e.len() == 16 && phrase@ == mnemonic_of(e)) ==> r is Some,
        r matches Some(s) ==> s@ == seed_of(phrase@) && s@.len() == 64,
{
    match bip39::Mnemonic::parse_in_normalized(bip39::Language::English, phrase) {
        Ok(m) => Some(m.to_seed("").to_vec()),
        Err(_) => None,
    }
}

/// Relies on `bitcoin::bip32::Xpriv::new_master` with `Network::Bitcoin`,
/// rendered through its `Display`: on success the serialized master key is
/// determined by the seed alone.
#[verifier::external_body]
pub(crate) fn xprv_from_seed(seed: &[u8]) -> (r: Option<String>)
    ensures
        r matches Some(s) ==> s@ == xprv_of(seed@),
{
    match bitcoin::bip32::Xpriv::new_master(bitcoin::Network::Bitcoin, seed) {
        Ok(k) => Some(k.to_string()),
        Err(_) => None,
    }
}

} // verus!
