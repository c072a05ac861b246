use vstd::prelude::*;

verus! {

/// The group order of the secp256k1 curve, as 32 big-endian bytes.
pub open spec fn secp256k1_order() -> Seq<u8> {
    seq![
        0xffu8,
        0xff,
        0xff,
        0xff,
        0xff,
        0xff,
        0xff,
        0xff,
        0xff,
        0xff,
        0xff,
        0xff,
        0xff,
        0xff,
        0xff,
        0xfe,
        0xba,
        0xae,
        0xdc,
        0xe6,
        0xaf,
        0x48,
        0xa0,
        0x3b,
        0xbf,
        0xd2,
        0x5e,
        0x8c,
        0xd0,
        0x36,
        0x41,
        0x41,
    ]
}

/// Big-endian lexicographic order of two byte sequences of equal length,
/// which on equal lengths is the numeric order of the values they encode.
pub open spec fn bytes_lt(a: Seq<u8>, b: Seq<u8>) -> bool
    recommends
        a.len() == b.len(),
{
    exists|j: int|
        0 <= j < a.len() && j < b.len() && a[j] < b[j] && (forall|k: int|
            0 <= k < j ==> a[k] == b[k])
}

/// Every byte is zero.
pub open spec fn is_zero_bytes(a: Seq<u8>) -> bool {
    forall|i: int| 0 <= i < a.len() ==> a[i] == 0
}

/// A valid secp256k1 scalar: 32 bytes encoding a value in [1, order - 1].
pub open spec fn is_valid_scalar(a: Seq<u8>) -> bool {
    a.len() == 32 && !is_zero_bytes(a) && bytes_lt(a, secp256k1_order())
}

fn bytes_lt_exec(a: &[u8], b: &[u8]) -> (r: bool)
    requires
        a@.len() == b@.len(),
    ensures
        r == bytes_lt(a@, b@),
{
    let mut i: usize = 0;
    while i < a.len()
        invariant
            0 <= i <= a@.len(),
            a@.len() == b@.len(),
            forall|k: int| 0 <= k < i ==> a@[k] == b@[k],
        decreases a@.len() - i,
    {
        if a[i] < b[i] {
            assert(bytes_lt(a@, b@));
            return true;
        }
        if a[i] > b[i] {
            assert(!bytes_lt(a@, b@)) by {
                if bytes_lt(a@, b@) {
                    let j = choose|j: int|
                        0 <= j < a@.len() && j < b@.len() && a@[j] < b@[j] && (forall|k: int|
                            0 <= k < j ==> a@[k] == b@[k]);
                    if j < i {
                        assert(a@[j] == b@[j]);
                    } else {
                        assert(a@[i as int] == b@[i as int]);
                    }
                }
            }
            return false;
        }
        i += 1;
    }
    assert(!bytes_lt(a@, b@)) by {
        if bytes_lt(a@, b@) {
            let j = choose|j: int|
                0 <= j < a@.len() && j < b@.len() && a@[j] < b@[j] && (forall|k: int|
                    0 <= k < j ==> a@[k] == b@[k]);
            assert(a@[j] == b@[j]);
        }
    }
    false
}

fn bytes_all_zero(a: &[u8]) -> (r: bool)
    ensures
        r == is_zero_bytes(a@),
{
    let mut i: usize = 0;
    while i < a.len()
        invariant
            0 <= i <= a@.len(),
            forall|k: int| 0 <= k < i ==> a@[k] == 0,
        decreases a@.len() - i,
    {
        if a[i] != 0 {
            assert(!is_zero_bytes(a@));
            return false;
        }
        i += 1;
    }
    true
}

/// Whether the 32-byte slice encodes a value in [1, order - 1], and so can
/// serve as a secp256k1 private key.
pub fn scalar_in_range(key: &[u8]) -> (r: bool)
    ensures
        r == is_valid_scalar(key@),
{
    if key.len() != 32 {
        return false;
    }
    let order: Vec<u8> = vec![
        0xffu8,
        0xff,
        0xff,
        0xff,
        0xff,
        0xff,
        0xff,
        0xff,
        0xff,
        0xff,
        0xff,
        0xff,
        0xff,
        0xff,
        0xff,
        0xfe,
        0xba,
        0xae,
        0xdc,
        0xe6,
        0xaf,
        0x48,
        0xa0,
        0x3b,
        0xbf,
        0xd2,
        0x5e,
        0x8c,
        0xd0,
        0x36,
        0x41,
        0x41,
    ];
    proof {
        assert(order@ =~= secp256k1_order());
    }
    !bytes_all_zero(key) && bytes_lt_exec(key, order.as_slice())
}

} // verus!
