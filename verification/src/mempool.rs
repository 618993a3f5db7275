//! The mempool priority queue: transactions admitted but not yet included
//! in a block, retrievable in priority order. The priority score is
//! gas price times gas limit (higher pays more, served first); among equal
//! scores the earlier submission timestamp is served first, and equal
//! timestamps keep their insertion order.

use vstd::prelude::*;

use crate::arith::{sat_mul_u64, saturating_mul_u64};
use crate::block::spec_contains_tx;
use crate::errors::BlockchainError;
use crate::hashing::bytes_eq;
use crate::transaction::{tx_structurally_valid, tx_structure_issue, Transaction, TxV};

verus! {

/// The priority score of a transaction: gas price times gas limit,
/// saturating at `u64::MAX`.
pub open spec fn spec_priority(t: TxV) -> u64 {
    sat_mul_u64(t.gas_price, t.gas_limit)
}

/// `a` is served no later than `b`: a higher score, or an equal score with
/// a timestamp that is not later.
pub open spec fn prio_weak_geq(a: TxV, b: TxV) -> bool {
    ||| spec_priority(a) > spec_priority(b)
    ||| (spec_priority(a) == spec_priority(b) && a.timestamp <= b.timestamp)
}

/// `a` is served strictly before `b` whatever their insertion order: a
/// higher score, or an equal score and a strictly earlier timestamp.
pub open spec fn prio_strict_gt(a: TxV, b: TxV) -> bool {
    ||| spec_priority(a) > spec_priority(b)
    ||| (spec_priority(a) == spec_priority(b) && a.timestamp < b.timestamp)
}

/// The sequence is in serving order.
pub open spec fn prio_sorted(s: Seq<TxV>) -> bool {
    forall|i: int, j: int| 0 <= i < j < s.len() ==> prio_weak_geq(#[trigger] s[i], #[trigger] s[j])
}

/// Pool of pending transactions, kept in serving order.
#[derive(Debug)]
pub struct Mempool {
    entries: Vec<Transaction>,
}

impl View for Mempool {
    type V = Seq<TxV>;

    closed spec fn view(&self) -> Seq<TxV> {
        Seq::new(self.entries@.len(), |i: int| self.entries@[i]@)
    }
}

impl Mempool {
    /// Well-formedness: the entries are in serving order and no hash
    /// occurs twice.
    pub closed spec fn wf(&self) -> bool {
        &&& prio_sorted(self@)
        &&& forall|i: int, j: int|
            0 <= i < j < self@.len() ==> (#[trigger] self@[i]).hash != (#[trigger] self@[j]).hash
    }

    /// A well-formed mempool serves its entries in priority order.
    pub proof fn lemma_wf_sorted(&self)
        requires
            self.wf(),
        ensures
            prio_sorted(self@),
    {
    }

    /// An empty mempool.
    pub fn new() -> (r: Mempool)
        ensures
            r.wf(),
            r@ == Seq::<TxV>::empty(),
    {
        let r = Mempool { entries: Vec::new() };
        assert(r@ =~= Seq::<TxV>::empty());
        r
    }

    /// Number of pending transactions.
    pub fn len(&self) -> (r: usize)
        ensures
            r == self@.len(),
    {
        self.entries.len()
    }

    /// Submit a transaction: rejected exactly when its structure is
    /// invalid, with the structural reason; a transaction whose hash is
    /// already pending leaves the pool unchanged; otherwise it is inserted
    /// at its unique serving position — after every entry that is served
    /// no later, before every entry it strictly outranks.
    pub fn submit(&mut self, tx: Transaction) -> (r: Result<(), BlockchainError>)
        requires
            old(self).wf(),
        ensures
            final(self).wf(),
            !tx_structurally_valid(tx@) ==> {
                &&& final(self)@ == old(self)@
                &&& r matches Err(e) && e matches BlockchainError::InvalidTransaction { reason }
                    && reason@ == tx_structure_issue(tx@)
            },
            tx_structurally_valid(tx@) ==> r is Ok,
            tx_structurally_valid(tx@) && spec_contains_tx(old(self)@, tx@.hash) ==> final(self)@
                == old(self)@,
            tx_structurally_valid(tx@) && !spec_contains_tx(old(self)@, tx@.hash) ==> exists|k: int|
                {
                    &&& 0 <= k <= old(self)@.len()
                    &&& final(self)@ == old(self)@.insert(k, tx@)
                    &&& forall|j: int| 0 <= j < k ==> prio_weak_geq(#[trigger] old(self)@[j], tx@)
                    &&& forall|j: int|
                        k <= j < old(self)@.len() ==> prio_strict_gt(tx@, #[trigger] old(self)@[j])
                },
    {
        match tx.validate_structure() {
            Ok(_) => {}
            Err(e) => {
                return Err(e);
            }
        }
        let ghost s0 = self@;
        let mut i: usize = 0;
        while i < self.entries.len()
            invariant
                i <= self@.len(),
                s0 == self@,
                self@ == old(self)@,
                self.wf(),
                tx_structurally_valid(tx@),
                forall|j: int| 0 <= j < i ==> (#[trigger] self@[j]).hash != tx@.hash,
            decreases self@.len() - i,
        {
            if bytes_eq(&self.entries[i].hash, &tx.hash) {
                assert(self@[i as int].hash == tx@.hash);
                return Ok(());
            }
            i = i + 1;
        }
        assert(!spec_contains_tx(s0, tx@.hash));
        let idx = find_slot(&self.entries, &tx);
        proof {
            assert(forall|j: int| 0 <= j < idx ==> prio_weak_geq(#[trigger] s0[j], tx@));
            assert forall|j: int| idx <= j < s0.len() implies prio_strict_gt(
                tx@,
                #[trigger] s0[j],
            ) by {
                assert(prio_strict_gt(tx@, s0[idx as int]));
                if j > idx {
                    assert(prio_weak_geq(s0[idx as int], s0[j]));
                }
            }
        }
        self.entries.insert(idx, tx);
        proof {
            assert(self@ =~= s0.insert(idx as int, tx@));
            let s1 = self@;
            assert forall|a: int, b: int| 0 <= a < b < s1.len() implies prio_weak_geq(
                #[trigger] s1[a],
                #[trigger] s1[b],
            ) by {
                if b < idx {
                    assert(s1[a] == s0[a] && s1[b] == s0[b]);
                } else if a > idx {
                    assert(s1[a] == s0[a - 1] && s1[b] == s0[b - 1]);
                } else if a == idx {
                    assert(s1[a] == tx@ && s1[b] == s0[b - 1]);
                } else if b == idx {
                    assert(s1[a] == s0[a] && s1[b] == tx@);
                } else {
                    assert(s1[a] == s0[a] && s1[b] == s0[b - 1]);
                    if a < idx && b - 1 >= idx {
                        assert(prio_strict_gt(tx@, s0[b - 1]));
                        assert(prio_weak_geq(s0[a], tx@));
                    }
                }
            }
            assert forall|a: int, b: int| 0 <= a < b < s1.len() implies (#[trigger] s1[a]).hash != (
            #[trigger] s1[b]).hash by {
                if a == idx {
                    assert(s1[b] == s0[b - 1]);
                } else if b == idx {
                    assert(s1[a] == s0[a]);
                } else if a < idx && b < idx {
                    assert(s1[a] == s0[a] && s1[b] == s0[b]);
                } else if a < idx {
                    assert(s1[a] == s0[a] && s1[b] == s0[b - 1]);
                } else {
                    assert(s1[a] == s0[a - 1] && s1[b] == s0[b - 1]);
                }
            }
            let w = idx as int;
            assert(exists|k: int|
                {
                    &&& 0 <= k <= s0.len()
                    &&& s1 == s0.insert(k, tx@)
                    &&& forall|j: int| 0 <= j < k ==> prio_weak_geq(#[trigger] s0[j], tx@)
                    &&& forall|j: int| k <= j < s0.len() ==> prio_strict_gt(tx@, #[trigger] s0[j])
                }) by {
                assert({
                    &&& 0 <= w <= s0.len()
                    &&& s1 == s0.insert(w, tx@)
                    &&& forall|j: int| 0 <= j < w ==> prio_weak_geq(#[trigger] s0[j], tx@)
                    &&& forall|j: int| w <= j < s0.len() ==> prio_strict_gt(tx@, #[trigger] s0[j])
                });
            }
        }
        Ok(())
    }

    /// Remove the pending transaction with the given hash. Idempotent: a
    /// hash that is not pending leaves the pool unchanged.
    pub fn remove(&mut self, tx_hash: &[u8; 32]) -> (r: Result<(), BlockchainError>)
        requires
            old(self).wf(),
        ensures
            final(self).wf(),
            r is Ok,
            !spec_contains_tx(old(self)@, tx_hash@) ==> final(self)@ == old(self)@,
            spec_contains_tx(old(self)@, tx_hash@) ==> exists|k: int|
                {
                    &&& 0 <= k < old(self)@.len()
                    &&& (#[trigger] old(self)@[k]).hash == tx_hash@
                    &&& final(self)@ == old(self)@.remove(k)
                },
    {
        let ghost s0 = self@;
        let mut i: usize = 0;
        while i < self.entries.len()
            invariant
                i <= self@.len(),
                s0 == self@,
                old(self).wf(),
                s0 == old(self)@,
                forall|j: int| 0 <= j < i ==> (#[trigger] self@[j]).hash != tx_hash@,
            decreases self@.len() - i,
        {
            if bytes_eq(&self.entries[i].hash, tx_hash) {
                proof {
                    assert(s0[i as int].hash == tx_hash@);
                }
                self.entries.remove(i);
                proof {
                    assert(self@ =~= s0.remove(i as int));
                    let s1 = self@;
                    let w = i as int;
                    assert forall|a: int, b: int| 0 <= a < b < s1.len() implies prio_weak_geq(
                        #[trigger] s1[a],
                        #[trigger] s1[b],
                    ) && (s1[a]).hash != (s1[b]).hash by {
                        let a0: int = if a < w {
                            a
                        } else {
                            a + 1
                        };
                        let b0: int = if b < w {
                            b
                        } else {
                            b + 1
                        };
                        assert(s1[a] == s0[a0] && s1[b] == s0[b0]);
                        assert(prio_weak_geq(s0[a0], s0[b0]));
                        assert(s0[a0].hash != s0[b0].hash);
                    }
                    assert(exists|k: int|
                        {
                            &&& 0 <= k < s0.len()
                            &&& (#[trigger] s0[k]).hash == tx_hash@
                            &&& s1 == s0.remove(k)
                        }) by {
                        assert({
                            &&& 0 <= w < s0.len()
                            &&& s0[w].hash == tx_hash@
                            &&& self@ == s0.remove(w)
                        });
                    }
                }
                return Ok(());
            }
            i = i + 1;
        }
        Ok(())
    }

    /// Return up to `limit` pending transactions in priority order without
    /// removing them: clones of the first entries of the pool, which a
    /// well-formed pool serves highest score first, ties to the earlier
    /// timestamp.
    pub fn take(&self, limit: usize) -> (r: Vec<Transaction>)
        requires
            self.wf(),
        ensures
            r@.len() == if limit < self@.len() {
                limit as int
            } else {
                self@.len() as int
            },
            forall|i: int| 0 <= i < r@.len() ==> (#[trigger] r@[i])@ == self@[i],
            forall|i: int, j: int|
                0 <= i < j < r@.len() ==> prio_weak_geq((#[trigger] r@[i])@, (#[trigger] r@[j])@),
    {
        let mut r: Vec<Transaction> = Vec::new();
        let mut i: usize = 0;
        while i < limit && i < self.entries.len()
            invariant
                i <= limit,
                i <= self@.len(),
                r@.len() == i,
                forall|j: int| 0 <= j < i ==> (#[trigger] r@[j])@ == self@[j],
            decreases self@.len() - i,
        {
            r.push(self.entries[i].clone());
            i = i + 1;
        }
        proof {
            assert forall|a: int, b: int| 0 <= a < b < r@.len() implies prio_weak_geq(
                (#[trigger] r@[a])@,
                (#[trigger] r@[b])@,
            ) by {
                assert(r@[a]@ == self@[a] && r@[b]@ == self@[b]);
                assert(prio_weak_geq(self@[a], self@[b]));
            }
        }
        r
    }
}

/// The serving position for a newcomer: after every entry that is served
/// no later, before the first entry it strictly outranks.
fn find_slot(entries: &Vec<Transaction>, tx: &Transaction) -> (idx: usize)
    ensures
        idx <= entries@.len(),
        forall|j: int| 0 <= j < idx ==> prio_weak_geq((#[trigger] entries@[j])@, tx@),
        idx < entries@.len() ==> prio_strict_gt(tx@, entries@[idx as int]@),
{
    let mut i: usize = 0;
    while i < entries.len()
        invariant
            i <= entries@.len(),
            forall|j: int| 0 <= j < i ==> prio_weak_geq((#[trigger] entries@[j])@, tx@),
        decreases entries@.len() - i,
    {
        if prio_gt(tx, &entries[i]) {
            return i;
        }
        proof {
            assert(prio_weak_geq(entries@[i as int]@, tx@));
        }
        i = i + 1;
    }
    i
}

/// Whether `a` is served strictly before `b` regardless of insertion
/// order.
fn prio_gt(a: &Transaction, b: &Transaction) -> (r: bool)
    ensures
        r == prio_strict_gt(a@, b@),
{
    let pa = saturating_mul_u64(a.gas_price, a.gas_limit);
    let pb = saturating_mul_u64(b.gas_price, b.gas_limit);
    pa > pb || (pa == pb && a.timestamp < b.timestamp)
}

} // verus!
