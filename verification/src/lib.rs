//! Deterministic secret derivation.
//!
//! From a user-supplied code and password, this library derives either a raw
//! stretched secret (hex), a Bitcoin private key in wallet import format, or a
//! BIP32 hierarchical-deterministic wallet (master extended private key plus a
//! BIP39 mnemonic backup phrase). All outputs are fully determined by the two
//! input strings: the salt of the memory-hard stretching step is itself a
//! digest of the input material, so the same inputs always yield the same
//! secrets.

pub mod base58;
pub mod derive;
pub mod digest;
pub mod errors;
pub mod hex;
pub mod scalar;
pub mod stretch;
pub mod wallet;
