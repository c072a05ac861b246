use vstd::prelude::*;
use vstd::string::StringSliceAdditionalSpecFns;
use crate::base58::{inputs_ok, validate_inputs};
use crate::digest::{sha3_256, sha3_256_of};
use crate::errors::DeriveError;
use argon2::PasswordHasher;

verus! {

/// The PHC hash string, as bytes, that Argon2id produces for the given
/// password material and raw salt with memory cost 65536 KiB, 3 iterations
/// and 4 lanes. Computed by the `argon2` crate; a function of password and
/// salt alone, since the parameters are fixed.
pub uninterp spec fn argon2id_phc_of(password: Seq<u8>, salt: Seq<u8>) -> Seq<u8>;

/// The 64-byte concatenation of the SHA3-256 digests of the two inputs,
/// code digest first.
pub open spec fn concat_hash_of(code: Seq<u8>, password: Seq<u8>) -> Seq<u8> {
    sha3_256_of(code) + sha3_256_of(password)
}

/// The deterministic salt seed: the digest of the concatenated hash. Using
/// a salt derived from the material being hashed forfeits Argon2's usual
/// anti-precomputation guarantee in exchange for full determinism, by design.
pub open spec fn salt_seed_of(concat: Seq<u8>) -> Seq<u8> {
    sha3_256_of(concat)
}

/// The 32-byte stretched secret: the digest of the Argon2id PHC string
/// computed over the concatenated hash with the deterministic salt.
pub open spec fn stretched_of(concat: Seq<u8>) -> Seq<u8> {
    sha3_256_of(argon2id_phc_of(concat, salt_seed_of(concat)))
}

/// Relies on `argon2::Argon2::hash_password_with_salt` (through the
/// `PasswordHasher` trait) with `Algorithm::Argon2id`, `Version::V0x13` and
/// `Params::new(65536, 3, 4, None)`: on success the PHC string is determined
/// by the password bytes and the raw salt bytes alone.
#[verifier::external_body]
fn argon2id_stretch(password: &[u8], salt: &[u8]) -> (r: Option<Vec<u8>>)
    ensures
        r matches Some(h) ==> h@ == argon2id_phc_of(password@, salt@),
{
    let params = match argon2::Params::new(65536, 3, 4, None) {
        Ok(p) => p,
        Err(_) => {
            return None;
        },
    };
    let hasher = argon2::Argon2::new(argon2::Algorithm::Argon2id, argon2::Version::V0x13, params);
    match hasher.hash_password_with_salt(password, salt) {
        Ok(h) => Some(h.to_string().into_bytes()),
        Err(_) => None,
    }
}

/// Validates both inputs and reduces each to its SHA3-256 digest, returning
/// the 64-byte concatenation, code digest first. Rejects the inputs with
/// `InvalidInput` before any hashing when the code is shorter than 16 bytes,
/// the password shorter than 8 bytes, or either holds a character outside
/// the Base58 alphabet.
pub fn hash_and_concatenate(provided_code: &str, password_string: &str) -> (r: Result<
    Vec<u8>,
    DeriveError,
>)
    ensures
        r is Ok <==> inputs_ok(provided_code.spec_bytes(), password_string.spec_bytes()),
        r matches Ok(v) ==> v@ == concat_hash_of(
            provided_code.spec_bytes(),
            password_string.spec_bytes(),
        ) && v@.len() == 64,
        r matches Err(e) ==> e == DeriveError::InvalidInput,
{
    if !validate_inputs(provided_code, password_string) {
        return Err(DeriveError::InvalidInput);
    }
    let mut concatenated = sha3_256(provided_code.as_bytes());
    let mut password_hash = sha3_256(password_string.as_bytes());
    concatenated.append(&mut password_hash);
    Ok(concatenated)
}

/// Stretches the 64-byte concatenated hash into the 32-byte stretched
/// secret: one more digest yields the deterministic salt, Argon2id runs over
/// the concatenation itself with that salt, and the digest of the
/// resulting PHC string is the secret. A failure of the memory-hard step is
/// reported as `StretchFailed`, never as a crash.
pub fn stretch_hash(concatenated_hash: &[u8]) -> (r: Result<Vec<u8>, DeriveError>)
    ensures
        r matches Ok(v) ==> v@ == stretched_of(concatenated_hash@) && v@.len() == 32,
        r matches Err(e) ==> e == DeriveError::StretchFailed,
{
    let final_hash = sha3_256(concatenated_hash);
    match argon2id_stretch(concatenated_hash, final_hash.as_slice()) {
        Some(phc) => Ok(sha3_256(phc.as_slice())),
        None => Err(DeriveError::StretchFailed),
    }
}

} // verus!
