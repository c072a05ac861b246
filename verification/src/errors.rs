use vstd::prelude::*;

verus! {

/// The failures a derivation can report. Every stage either returns a value
/// or one of these; no derivation call panics.
#[derive(Clone, Copy, Debug, PartialEq, Eq, Structural)]
pub enum DeriveError {
    /// The code or the password is too short or not Base58 text.
    InvalidInput,
    /// The memory-hard stretching step failed.
    StretchFailed,
    /// The stretched secret is not a valid secp256k1 scalar.
    InvalidScalar,
    /// The mnemonic could not be built from the wallet entropy.
    MnemonicError,
    /// The master extended key could not be built from the seed.
    KeyDerivationError,
}

/// The human-readable message of each failure. The `InvalidInput` message
/// always combines the length requirement and the format requirement, even
/// when only one of the two checks failed.
pub open spec fn message_of(e: DeriveError) -> Seq<char> {
    match e {
        DeriveError::InvalidInput => "Provided code must be at least 16 characters long and password must be at least 8 characters long\nProvided code or password is not in Base58 format"@,
        DeriveError::StretchFailed => "Failed to generate hash"@,
        DeriveError::InvalidScalar => "Derived secret is not a valid secp256k1 private key"@,
        DeriveError::MnemonicError => "Mnemonic generation error"@,
        DeriveError::KeyDerivationError => "Master key derivation error"@,
    }
}

impl DeriveError {
    /// The message that crosses the boundary to the caller.
    pub fn message(&self) -> (r: &'static str)
        ensures
            r@ == message_of(*self),
    {
        match self {
            DeriveError::InvalidInput => "Provided code must be at least 16 characters long and password must be at least 8 characters long\nProvided code or password is not in Base58 format",
            DeriveError::StretchFailed => "Failed to generate hash",
            DeriveError::InvalidScalar => "Derived secret is not a valid secp256k1 private key",
            DeriveError::MnemonicError => "Mnemonic generation error",
            DeriveError::KeyDerivationError => "Master key derivation error",
        }
    }
}

} // verus!
