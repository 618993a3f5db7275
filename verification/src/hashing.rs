//! The hashing primitive and the address form check: every identifier in
//! the ledger is a digest produced here.

use vstd::prelude::*;

verus! {

/// The SHA-256 digest of a byte sequence. The digest is a pure function of
/// the input bytes alone, so repeated calls on equal inputs agree.
pub uninterp spec fn sha256_of(data: Seq<u8>) -> Seq<u8>;

/// Relies on `sha2::Sha256` for the digest itself: the result depends on
/// the input bytes alone and is exactly 32 bytes long.
#[verifier::external_body]
pub fn hash_data(data: &[u8]) -> (r: [u8; 32])
    ensures
        r@ == sha256_of(data@),
{
    let mut hasher = <sha2::Sha256 as sha2::Digest>::new();
    sha2::Digest::update(&mut hasher, data);
    sha2::Digest::finalize(hasher).into()
}

/// An address is acceptable when at least one of its bytes is non-zero;
/// the all-zero form is reserved and never denotes an account.
pub open spec fn spec_address_nonzero(a: Seq<u8>) -> bool {
    exists|i: int| 0 <= i < a.len() && a[i] != 0
}

/// Check the address form: rejects exactly the reserved all-zero value.
pub fn validate_address(address: &[u8; 20]) -> (r: bool)
    ensures
        r == spec_address_nonzero(address@),
{
    let mut i: usize = 0;
    while i < 20
        invariant
            i <= 20,
            forall|j: int| 0 <= j < i ==> address@[j] == 0,
        decreases 20 - i,
    {
        if address[i] != 0 {
            assert(address@[i as int] != 0);
            return true;
        }
        i = i + 1;
    }
    false
}

/// Byte-for-byte equality of two fixed-width byte strings.
pub fn bytes_eq<const N: usize>(a: &[u8; N], b: &[u8; N]) -> (r: bool)
    ensures
        r == (a@ == b@),
{
    let mut i: usize = 0;
    while i < N
        invariant
            i <= N,
            forall|j: int| 0 <= j < i ==> a@[j] == b@[j],
        decreases N - i,
    {
        if a[i] != b[i] {
            return false;
        }
        i = i + 1;
    }
    assert(a@ =~= b@);
    true
}

} // verus!
