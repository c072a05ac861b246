use vstd::prelude::*;
use vstd::string::StringSliceAdditionalSpecFns;

verus! {

/// A byte of the Bitcoin Base58 alphabet: the ASCII digits and letters
/// without the visually ambiguous `0`, `O`, `I` and `l`.
pub open spec fn is_base58_byte(b: u8) -> bool {
    (49 <= b && b <= 57)  // '1' ..= '9'
    || (65 <= b && b <= 90 && b != 73 && b != 79)  // 'A' ..= 'Z' without 'I', 'O'
    || (97 <= b && b <= 122 && b != 108)  // 'a' ..= 'z' without 'l'
}

/// Every byte of `s` belongs to the Base58 alphabet.
pub open spec fn all_base58(s: Seq<u8>) -> bool {
    forall|i: int| 0 <= i < s.len() ==> is_base58_byte(s[i])
}

/// A well-formed code: at least 16 bytes, all in the Base58 alphabet.
pub open spec fn code_ok(code: Seq<u8>) -> bool {
    code.len() >= 16 && all_base58(code)
}

/// A well-formed password: at least 8 bytes, all in the Base58 alphabet.
pub open spec fn password_ok(password: Seq<u8>) -> bool {
    password.len() >= 8 && all_base58(password)
}

/// Both inputs of a derivation are well formed.
pub open spec fn inputs_ok(code: Seq<u8>, password: Seq<u8>) -> bool {
    code_ok(code) && password_ok(password)
}

fn byte_is_base58(b: u8) -> (r: bool)
    ensures
        r == is_base58_byte(b),
{
    (49 <= b && b <= 57) || (65 <= b && b <= 90 && b != 73 && b != 79) || (97 <= b && b <= 122
        && b != 108)
}

/// Whether every byte of the slice is in the Base58 alphabet.
pub fn bytes_all_base58(s: &[u8]) -> (r: bool)
    ensures
        r == all_base58(s@),
{
    let mut i: usize = 0;
    while i < s.len()
        invariant
            0 <= i <= s@.len(),
            forall|j: int| 0 <= j < i ==> is_base58_byte(s@[j]),
        decreases s@.len() - i,
    {
        if !byte_is_base58(s[i]) {
            assert(!is_base58_byte(s@[i as int]));
            return false;
        }
        i += 1;
    }
    true
}

/// Checks both inputs: the code at least 16 bytes, the password at least
/// 8 bytes, and both made of Base58 characters only.
pub fn validate_inputs(code: &str, password: &str) -> (r: bool)
    ensures
        r == inputs_ok(code.spec_bytes(), password.spec_bytes()),
{
    let cb = code.as_bytes();
    let pb = password.as_bytes();
    cb.len() >= 16 && pb.len() >= 8 && bytes_all_base58(cb) && bytes_all_base58(pb)
}

} // verus!
