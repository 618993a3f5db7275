//! The merkle builder: folds an ordered sequence of transaction hashes
//! into a single root digest. An empty list has the all-zero sentinel
//! root, a single hash is its own root, and an odd level is completed by
//! duplicating its last element — exactly the fold a later
//! proof-of-inclusion check must reproduce.

use vstd::prelude::*;

use crate::hashing::{hash_data, sha256_of};
use crate::encoding::push_bytes;

verus! {

/// The all-zero 32-byte sentinel: the root of an empty transaction list.
pub open spec fn zero_hash() -> Seq<u8> {
    Seq::new(32, |i: int| 0u8)
}

/// The parent of two adjacent hashes: the digest of their concatenation.
pub open spec fn merkle_pair(a: Seq<u8>, b: Seq<u8>) -> Seq<u8> {
    sha256_of(a + b)
}

/// One folding round: adjacent pairs are combined left to right; an odd
/// count duplicates the last element to complete the final pair.
pub open spec fn merkle_level(hs: Seq<Seq<u8>>) -> Seq<Seq<u8>> {
    Seq::new(
        (hs.len() + 1) / 2,
        |i: int|
            if 2 * i + 1 < hs.len() {
                merkle_pair(hs[2 * i], hs[2 * i + 1])
            } else {
                merkle_pair(hs[2 * i], hs[2 * i])
            },
    )
}

/// The merkle root of an ordered sequence of hashes: fold rounds are
/// applied until one hash remains; the empty sequence has the all-zero
/// sentinel root.
pub open spec fn merkle_root_of(hs: Seq<Seq<u8>>) -> Seq<u8>
    decreases hs.len(),
{
    if hs.len() == 0 {
        zero_hash()
    } else if hs.len() == 1 {
        hs[0]
    } else {
        merkle_root_of(merkle_level(hs))
    }
}

/// The merkle root of an empty sequence is the all-zero sentinel.
pub proof fn lemma_merkle_root_empty()
    ensures
        merkle_root_of(Seq::<Seq<u8>>::empty()) == zero_hash(),
{
}

/// The merkle root of a single hash is that hash itself: zero folding
/// rounds are applied.
pub proof fn lemma_merkle_root_single(h: Seq<u8>)
    ensures
        merkle_root_of(seq![h]) == h,
{
}

/// A folding round over an odd number of hashes (more than one) pads by
/// duplication: its last parent is the digest of the last element twice.
pub proof fn lemma_merkle_level_odd_pads(hs: Seq<Seq<u8>>)
    requires
        hs.len() % 2 == 1,
        hs.len() > 1,
    ensures
        merkle_level(hs).len() == (hs.len() + 1) / 2,
        merkle_level(hs).last() == merkle_pair(hs.last(), hs.last()),
{
}

/// The root of three hashes: the first two pair up, the third is paired
/// with itself, and the two parents pair into the root.
pub proof fn lemma_merkle_root_three(a: Seq<u8>, b: Seq<u8>, c: Seq<u8>)
    ensures
        merkle_root_of(seq![a, b, c]) == merkle_pair(merkle_pair(a, b), merkle_pair(c, c)),
{
    let l0 = seq![a, b, c];
    let l1 = merkle_level(l0);
    assert(l1.len() == 2);
    assert(l1[0] == merkle_pair(a, b));
    assert(l1[1] == merkle_pair(c, c));
    let l2 = merkle_level(l1);
    assert(l2.len() == 1);
    assert(l2[0] == merkle_pair(l1[0], l1[1]));
    assert(merkle_root_of(l0) == merkle_root_of(l1));
    assert(merkle_root_of(l1) == merkle_root_of(l2));
    assert(merkle_root_of(l2) == l2[0]);
}

/// The byte sequences denoted by a sequence of 32-byte hashes.
pub open spec fn hashes_view(s: Seq<[u8; 32]>) -> Seq<Seq<u8>> {
    Seq::new(s.len(), |i: int| s[i]@)
}

/// Compute the merkle root of an ordered list of 32-byte hashes.
pub fn merkle_root(leaves: Vec<[u8; 32]>) -> (r: [u8; 32])
    ensures
        r@ == merkle_root_of(hashes_view(leaves@)),
{
    if leaves.len() == 0 {
        let z = [0u8; 32];
        assert(z@ =~= zero_hash());
        return z;
    }
    let mut hashes = leaves;
    while hashes.len() > 1
        invariant
            hashes@.len() >= 1,
            merkle_root_of(hashes_view(hashes@)) == merkle_root_of(hashes_view(leaves@)),
        decreases hashes@.len(),
    {
        let ghost prev = hashes_view(hashes@);
        let n = hashes.len();
        let n_pairs = n / 2 + n % 2;
        assert(n_pairs == (n + 1) / 2);
        let mut next: Vec<[u8; 32]> = Vec::new();
        let mut k: usize = 0;
        while k < n_pairs
            invariant
                2 <= n,
                n == hashes@.len(),
                prev == hashes_view(hashes@),
                n_pairs == (n + 1) as int / 2,
                k == next@.len(),
                k <= n_pairs,
                forall|j: int| 0 <= j < k ==> next@[j]@ == merkle_level(prev)[j],
            decreases n_pairs - k,
        {
            assert(2 * k < n);
            let mut data: Vec<u8> = Vec::new();
            push_bytes(&mut data, hashes[2 * k].as_slice());
            if 2 * k + 1 < n {
                push_bytes(&mut data, hashes[2 * k + 1].as_slice());
                assert(data@ =~= prev[2 * (k as int)] + prev[2 * (k as int) + 1]);
            } else {
                push_bytes(&mut data, hashes[2 * k].as_slice());
                assert(data@ =~= prev[2 * (k as int)] + prev[2 * (k as int)]);
            }
            let h = hash_data(data.as_slice());
            assert(h@ == merkle_level(prev)[k as int]);
            next.push(h);
            k = k + 1;
        }
        assert(hashes_view(next@) =~= merkle_level(prev));
        assert(merkle_root_of(prev) == merkle_root_of(merkle_level(prev)));
        hashes = next;
    }
    assert(merkle_root_of(hashes_view(hashes@)) == hashes_view(hashes@)[0]);
    hashes[0]
}

} // verus!
