use vstd::prelude::*;
use vstd::string::StringSliceAdditionalSpecFns;
use crate::base58::inputs_ok;
use crate::errors::DeriveError;
use crate::hex::{hex_encode, hex_of};
use crate::scalar::{is_valid_scalar, scalar_in_range};
use crate::stretch::{concat_hash_of, hash_and_concatenate, stretch_hash, stretched_of};
use crate::wallet::{
    mnemonic_from_entropy, mnemonic_of, seed_from_phrase, seed_of, wif_from_key, wif_of,
    xprv_from_seed, xprv_of,
};

verus! {

/// The raw secret of a pair of inputs: the lowercase hex encoding of the
/// stretched secret.
pub open spec fn raw_secret_of(code: Seq<u8>, password: Seq<u8>) -> Seq<char> {
    hex_of(stretched_of(concat_hash_of(code, password)))
}

/// The secp256k1 scalar a pair of inputs derives: the stretched secret
/// itself, all 32 bytes.
pub open spec fn secret_scalar_of(code: Seq<u8>, password: Seq<u8>) -> Seq<u8> {
    stretched_of(concat_hash_of(code, password))
}

/// The wallet entropy a pair of inputs derives: the leading 16 bytes of the
/// stretched secret.
pub open spec fn wallet_entropy_of(code: Seq<u8>, password: Seq<u8>) -> Seq<u8> {
    stretched_of(concat_hash_of(code, password)).subrange(0, 16)
}

/// Derives the raw stretched secret of the two inputs as a 64-character
/// lowercase hex string. Rejects malformed inputs with `InvalidInput`; a
/// failure of the memory-hard step surfaces as `StretchFailed`.
pub fn derive_raw_secret(code: &str, password: &str) -> (r: Result<String, DeriveError>)
    ensures
        !inputs_ok(code.spec_bytes(), password.spec_bytes()) ==> r == Err::<
            String,
            DeriveError,
        >(DeriveError::InvalidInput),
        r matches Ok(h) ==> inputs_ok(code.spec_bytes(), password.spec_bytes()) && h@
            == raw_secret_of(code.spec_bytes(), password.spec_bytes()) && h@.len() == 64,
        r matches Err(e) ==> e == DeriveError::InvalidInput || e == DeriveError::StretchFailed,
        inputs_ok(code.spec_bytes(), password.spec_bytes()) ==> (r matches Err(e) ==> e
            == DeriveError::StretchFailed),
{
    let concatenated = match hash_and_concatenate(code, password) {
        Ok(v) => v,
        Err(e) => {
            return Err(e);
        },
    };
    let stretched = match stretch_hash(concatenated.as_slice()) {
        Ok(v) => v,
        Err(e) => {
            return Err(e);
        },
    };
    Ok(hex_encode(stretched.as_slice()))
}

/// Derives a Bitcoin private key from the two inputs and encodes it as a
/// mainnet, compressed-flag WIF string. The stretched secret is checked
/// against the secp256k1 group order before any key is built; a value of
/// zero or at least the order is rejected as `InvalidScalar`.
pub fn derive_bitcoin_wif(code: &str, password: &str) -> (r: Result<String, DeriveError>)
    ensures
        !inputs_ok(code.spec_bytes(), password.spec_bytes()) ==> r == Err::<
            String,
            DeriveError,
        >(DeriveError::InvalidInput),
        r matches Ok(w) ==> inputs_ok(code.spec_bytes(), password.spec_bytes())
            && is_valid_scalar(secret_scalar_of(code.spec_bytes(), password.spec_bytes())) && w@
            == wif_of(secret_scalar_of(code.spec_bytes(), password.spec_bytes())),
        r matches Err(e) ==> e == DeriveError::InvalidInput || e == DeriveError::StretchFailed || e
            == DeriveError::InvalidScalar,
        r == Err::<String, DeriveError>(DeriveError::InvalidScalar) ==> !is_valid_scalar(
            secret_scalar_of(code.spec_bytes(), password.spec_bytes()),
        ),
        inputs_ok(code.spec_bytes(), password.spec_bytes()) ==> (r matches Err(e) ==> e
            == DeriveError::StretchFailed || e == DeriveError::InvalidScalar),
{
    let concatenated = match hash_and_concatenate(code, password) {
        Ok(v) => v,
        Err(e) => {
            return Err(e);
        },
    };
    let stretched = match stretch_hash(concatenated.as_slice()) {
        Ok(v) => v,
        Err(e) => {
            return Err(e);
        },
    };
    if !scalar_in_range(stretched.as_slice()) {
        return Err(DeriveError::InvalidScalar);
    }
    match wif_from_key(stretched.as_slice()) {
        Some(w) => Ok(w),
        None => Err(DeriveError::InvalidScalar),
    }
}

/// Derives a BIP32 hierarchical-deterministic wallet from the two inputs:
/// the serialized mainnet master extended private key and the 12-word BIP39
/// mnemonic phrase of the leading 16 bytes of the stretched secret. The
/// seed comes from the mnemonic with the empty passphrase, per BIP39.
pub fn derive_hd_wallet(code: &str, password: &str) -> (r: Result<(String, String), DeriveError>)
    ensures
        !inputs_ok(code.spec_bytes(), password.spec_bytes()) ==> r == Err::<
            (String, String),
            DeriveError,
        >(DeriveError::InvalidInput),
        r matches Ok(p) ==> inputs_ok(code.spec_bytes(), password.spec_bytes()) && p.1@
            == mnemonic_of(wallet_entropy_of(code.spec_bytes(), password.spec_bytes())) && p.0@
            == xprv_of(
            seed_of(mnemonic_of(wallet_entropy_of(code.spec_bytes(), password.spec_bytes()))),
        ),
        r matches Err(e) ==> e == DeriveError::InvalidInput || e == DeriveError::StretchFailed || e
            == DeriveError::KeyDerivationError,
        inputs_ok(code.spec_bytes(), password.spec_bytes()) ==> (r matches Err(e) ==> e
            == DeriveError::StretchFailed || e == DeriveError::KeyDerivationError),
{
    let concatenated = match hash_and_concatenate(code, password) {
        Ok(v) => v,
        Err(e) => {
            return Err(e);
        },
    };
    let stretched = match stretch_hash(concatenated.as_slice()) {
        Ok(v) => v,
        Err(e) => {
            return Err(e);
        },
    };
    let (entropy, _) = stretched.as_slice().split_at(16);
    let phrase = match mnemonic_from_entropy(entropy) {
        Some(m) => m,
        None => {
            return Err(DeriveError::MnemonicError);
        },
    };
    assert(exists|e: Seq<u8>| e.len() == 16 && phrase@ == mnemonic_of(e)) by {
        assert(entropy@.len() == 16 && phrase@ == mnemonic_of(entropy@));
    }
    let seed = match seed_from_phrase(phrase.as_str()) {
        Some(s) => s,
        None => {
            return Err(DeriveError::MnemonicError);
        },
    };
    match xprv_from_seed(seed.as_slice()) {
        Some(x) => Ok((x, phrase)),
        None => Err(DeriveError::KeyDerivationError),
    }
}

/// Determinism: the outputs named by the contracts of the three operations
/// are functions of the two inputs alone, so equal inputs name equal
/// secrets, scalars and entropy.
pub proof fn lemma_determinism(
    code1: Seq<u8>,
    password1: Seq<u8>,
    code2: Seq<u8>,
    password2: Seq<u8>,
)
    requires
        code1 == code2,
        password1 == password2,
    ensures
        raw_secret_of(code1, password1) == raw_secret_of(code2, password2),
        secret_scalar_of(code1, password1) == secret_scalar_of(code2, password2),
        wallet_entropy_of(code1, password1) == wallet_entropy_of(code2, password2),
{
}

/// Cross-operation consistency: the raw secret is exactly the hex encoding
/// of the stretched secret, the WIF operation encodes that same stretched
/// secret, and the wallet entropy is its leading 16 bytes.
pub proof fn lemma_cross_operation_consistency(code: Seq<u8>, password: Seq<u8>)
    ensures
        raw_secret_of(code, password) == hex_of(secret_scalar_of(code, password)),
        secret_scalar_of(code, password) == stretched_of(concat_hash_of(code, password)),
        wallet_entropy_of(code, password) == secret_scalar_of(code, password).subrange(0, 16),
{
}

} // verus!
