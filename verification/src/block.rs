//! The block entity: a header plus an ordered transaction list. The block
//! hash is computed over the header alone; the transaction list is bound
//! to the header transitively through the merkle root. Structural
//! validation, chain-linkage checks and aggregate queries live here.

use vstd::prelude::*;

use crate::arith::{
    clamp_u64, lemma_sat_add_clamp, sat_add_i64, sat_add_u64, sat_mul_u64, saturating_add_i64,
    saturating_add_u64,
};
use crate::encoding::{i64_bytes, push_bytes, push_i64, push_u32, push_u64, u32_bytes, u64_bytes};
use crate::errors::BlockchainError;
use crate::hashing::{bytes_eq, hash_data, sha256_of};
use crate::merkle::{hashes_view, merkle_root, merkle_root_of, zero_hash};
use crate::transaction::{
    kind_amount, spec_tx_hash, tx_preimage, tx_structurally_valid, tx_structure_issue, Transaction,
    TxV,
};

verus! {

/// Mathematical model of a block header.
#[verifier::ext_equal]
pub struct HeaderV {
    pub height: u64,
    pub previous_hash: Seq<u8>,
    pub merkle_root: Seq<u8>,
    pub timestamp: i64,
    pub nonce: u64,
    pub difficulty: u32,
    pub version: u32,
}

/// Mathematical model of a whole block.
#[verifier::ext_equal]
pub struct BlockV {
    pub hash: Seq<u8>,
    pub header: HeaderV,
    pub transactions: Seq<TxV>,
    pub transaction_count: u32,
    pub size: u64,
}

/// Block header containing the chain-linkage metadata.
#[derive(Debug)]
pub struct BlockHeader {
    /// Height in the chain; 0 is the genesis block.
    pub height: u64,
    /// Hash of the previous block; all-zero for genesis.
    pub previous_hash: [u8; 32],
    /// Merkle root over the contained transactions.
    pub merkle_root: [u8; 32],
    /// Block timestamp, nanoseconds since the Unix epoch.
    pub timestamp: i64,
    /// Externally supplied proof material; no puzzle is solved here.
    pub nonce: u64,
    /// Difficulty target recorded for this block.
    pub difficulty: u32,
    /// Version of the block format.
    pub version: u32,
}

impl View for BlockHeader {
    type V = HeaderV;

    open spec fn view(&self) -> HeaderV {
        HeaderV {
            height: self.height,
            previous_hash: self.previous_hash@,
            merkle_root: self.merkle_root@,
            timestamp: self.timestamp,
            nonce: self.nonce,
            difficulty: self.difficulty,
            version: self.version,
        }
    }
}

/// The models of a sequence of transactions.
pub open spec fn txs_view(s: Seq<Transaction>) -> Seq<TxV> {
    Seq::new(s.len(), |i: int| s[i]@)
}

/// Complete block: header, ordered transaction list, and cached counters.
#[derive(Debug)]
pub struct Block {
    /// Block hash, computed from the header.
    pub hash: [u8; 32],
    /// Block header.
    pub header: BlockHeader,
    /// Ordered list of transactions in this block.
    pub transactions: Vec<Transaction>,
    /// Cached transaction count; always equals the list length.
    pub transaction_count: u32,
    /// Cached canonical byte size of the block.
    pub size: u64,
}

impl View for Block {
    type V = BlockV;

    open spec fn view(&self) -> BlockV {
        BlockV {
            hash: self.hash@,
            header: self.header@,
            transactions: txs_view(self.transactions@),
            transaction_count: self.transaction_count,
            size: self.size,
        }
    }
}

/// Canonical encoding of a block header.
pub open spec fn header_preimage(h: HeaderV) -> Seq<u8> {
    u64_bytes(h.height) + h.previous_hash + h.merkle_root + i64_bytes(h.timestamp) + u64_bytes(
        h.nonce,
    ) + u32_bytes(h.difficulty) + u32_bytes(h.version)
}

/// The identity hash of a block: the digest of its header's canonical
/// encoding. The transaction list enters only through the merkle root.
pub open spec fn spec_block_hash(h: HeaderV) -> Seq<u8> {
    sha256_of(header_preimage(h))
}

/// The canonical header encoding is injective: no two distinct headers
/// (with well-formed 32-byte hash fields) canonicalize identically, so
/// equal header digests can only collide in the digest itself.
pub proof fn lemma_header_preimage_injective(a: HeaderV, b: HeaderV)
    requires
        header_preimage(a) == header_preimage(b),
        a.previous_hash.len() == 32,
        a.merkle_root.len() == 32,
        b.previous_hash.len() == 32,
        b.merkle_root.len() == 32,
    ensures
        a == b,
{
    let a5 = u64_bytes(a.height) + a.previous_hash + a.merkle_root + i64_bytes(a.timestamp)
        + u64_bytes(a.nonce) + u32_bytes(a.difficulty);
    let b5 = u64_bytes(b.height) + b.previous_hash + b.merkle_root + i64_bytes(b.timestamp)
        + u64_bytes(b.nonce) + u32_bytes(b.difficulty);
    crate::encoding::lemma_concat_split(a5, u32_bytes(a.version), b5, u32_bytes(b.version));
    crate::encoding::lemma_u32_bytes_injective(a.version, b.version);
    let a4 = u64_bytes(a.height) + a.previous_hash + a.merkle_root + i64_bytes(a.timestamp)
        + u64_bytes(a.nonce);
    let b4 = u64_bytes(b.height) + b.previous_hash + b.merkle_root + i64_bytes(b.timestamp)
        + u64_bytes(b.nonce);
    crate::encoding::lemma_concat_split(a4, u32_bytes(a.difficulty), b4, u32_bytes(b.difficulty));
    crate::encoding::lemma_u32_bytes_injective(a.difficulty, b.difficulty);
    let a3 = u64_bytes(a.height) + a.previous_hash + a.merkle_root + i64_bytes(a.timestamp);
    let b3 = u64_bytes(b.height) + b.previous_hash + b.merkle_root + i64_bytes(b.timestamp);
    crate::encoding::lemma_concat_split(a3, u64_bytes(a.nonce), b3, u64_bytes(b.nonce));
    crate::encoding::lemma_u64_bytes_injective(a.nonce, b.nonce);
    let a2 = u64_bytes(a.height) + a.previous_hash + a.merkle_root;
    let b2 = u64_bytes(b.height) + b.previous_hash + b.merkle_root;
    crate::encoding::lemma_concat_split(a2, i64_bytes(a.timestamp), b2, i64_bytes(b.timestamp));
    crate::encoding::lemma_i64_bytes_injective(a.timestamp, b.timestamp);
    let a1 = u64_bytes(a.height) + a.previous_hash;
    let b1 = u64_bytes(b.height) + b.previous_hash;
    crate::encoding::lemma_concat_split(a1, a.merkle_root, b1, b.merkle_root);
    crate::encoding::lemma_concat_split(
        u64_bytes(a.height),
        a.previous_hash,
        u64_bytes(b.height),
        b.previous_hash,
    );
    crate::encoding::lemma_u64_bytes_injective(a.height, b.height);
    assert(a =~= b);
}

/// The hashes of a sequence of transactions, in list order.
pub open spec fn tx_hashes_of(txs: Seq<TxV>) -> Seq<Seq<u8>> {
    Seq::new(txs.len(), |i: int| txs[i].hash)
}

/// Canonical size of one transaction: its hashed-field encoding, a length
/// prefix, the signature bytes, and a status tag byte.
pub open spec fn tx_size_int(t: TxV) -> int {
    tx_preimage(t.kind, t.nonce, t.gas_limit, t.gas_price, t.timestamp).len() as int + 9
        + t.signature.len() as int
}

/// Sum of the canonical transaction sizes.
pub open spec fn sizes_sum_int(txs: Seq<TxV>) -> int
    decreases txs.len(),
{
    if txs.len() == 0 {
        0
    } else {
        sizes_sum_int(txs.drop_last()) + tx_size_int(txs.last())
    }
}

/// Canonical byte size of a block: the fixed-width header encoding plus
/// the transaction sizes, clamped to the 64-bit range.
pub open spec fn spec_block_size(txs: Seq<TxV>) -> u64 {
    clamp_u64(96 + sizes_sum_int(txs))
}

proof fn lemma_sizes_sum_nonneg(txs: Seq<TxV>)
    ensures
        sizes_sum_int(txs) >= 0,
    decreases txs.len(),
{
    if txs.len() > 0 {
        lemma_sizes_sum_nonneg(txs.drop_last());
    }
}

/// A block freshly built by the constructor from the given inputs: the
/// header carries them, the merkle root and counters are computed from the
/// transaction list, and the stored hash is the header's digest.
pub open spec fn fresh_block(
    b: BlockV,
    height: u64,
    previous_hash: Seq<u8>,
    txs: Seq<TxV>,
    difficulty: u32,
) -> bool {
    &&& b.header.height == height
    &&& b.header.previous_hash == previous_hash
    &&& b.header.merkle_root == merkle_root_of(tx_hashes_of(txs))
    &&& b.header.nonce == 0
    &&& b.header.difficulty == difficulty
    &&& b.header.version == 1
    &&& b.transactions == txs
    &&& b.transaction_count == txs.len()
    &&& b.hash == spec_block_hash(b.header)
    &&& b.size == spec_block_size(txs)
}

/// A block whose time-independent structure is sound: the stored hash,
/// merkle root and count match recomputation, and every contained
/// transaction is structurally valid.
pub open spec fn block_statically_valid(b: BlockV) -> bool {
    &&& b.hash == spec_block_hash(b.header)
    &&& b.header.merkle_root == merkle_root_of(tx_hashes_of(b.transactions))
    &&& b.transaction_count == b.transactions.len()
    &&& forall|i: int|
        0 <= i < b.transactions.len() ==> tx_structurally_valid(#[trigger] b.transactions[i])
}

/// The error reported by block validation, for the first failing check in
/// order: hash, merkle root, count, the transactions in list order, and
/// last the clock-skew bound on the timestamp.
pub open spec fn block_issue_ok(b: BlockV, e: BlockchainError) -> bool {
    if b.hash != spec_block_hash(b.header) {
        e matches BlockchainError::BlockValidationFailed { reason } && reason@
            == "Block hash mismatch"@
    } else if b.header.merkle_root != merkle_root_of(tx_hashes_of(b.transactions)) {
        e matches BlockchainError::BlockValidationFailed { reason } && reason@
            == "Merkle root mismatch"@
    } else if b.transaction_count != b.transactions.len() {
        e matches BlockchainError::BlockValidationFailed { reason } && reason@
            == "Transaction count mismatch"@
    } else if exists|i: int|
        0 <= i < b.transactions.len() && !tx_structurally_valid(#[trigger] b.transactions[i]) {
        exists|i: int|
            {
                &&& 0 <= i < b.transactions.len()
                &&& !tx_structurally_valid(#[trigger] b.transactions[i])
                &&& forall|j: int| 0 <= j < i ==> tx_structurally_valid(#[trigger] b.transactions[j])
                &&& e matches BlockchainError::InvalidTransaction { reason } && reason@
                    == tx_structure_issue(b.transactions[i])
            }
    } else {
        e matches BlockchainError::BlockValidationFailed { reason } && reason@
            == "Block timestamp too far in future"@
    }
}

/// A block may follow a predecessor when its height is the successor, its
/// previous-hash link matches the predecessor's hash, and its timestamp is
/// strictly later.
pub open spec fn can_follow_ok(b: BlockV, p: BlockV) -> bool {
    &&& b.header.height == p.header.height + 1
    &&& b.header.previous_hash == p.hash
    &&& b.header.timestamp > p.header.timestamp
}

/// The reason reported for the first failing chain-linkage check.
pub open spec fn follow_issue(b: BlockV, p: BlockV) -> Seq<char> {
    if b.header.height != p.header.height + 1 {
        "Invalid height"@
    } else if b.header.previous_hash != p.hash {
        "Previous hash mismatch"@
    } else {
        "Block timestamp must be after previous block"@
    }
}

/// Build the canonical encoding of a block header.
pub fn encode_header_preimage(h: &BlockHeader) -> (r: Vec<u8>)
    ensures
        r@ == header_preimage(h@),
{
    let mut out: Vec<u8> = Vec::new();
    push_u64(&mut out, h.height);
    push_bytes(&mut out, h.previous_hash.as_slice());
    push_bytes(&mut out, h.merkle_root.as_slice());
    push_i64(&mut out, h.timestamp);
    push_u64(&mut out, h.nonce);
    push_u32(&mut out, h.difficulty);
    push_u32(&mut out, h.version);
    assert(out@ =~= header_preimage(h@));
    out
}

/// Canonical byte size of a block with the given transactions.
fn compute_size(transactions: &Vec<Transaction>) -> (r: u64)
    ensures
        r == spec_block_size(txs_view(transactions@)),
{
    let ghost txs = txs_view(transactions@);
    let mut total: u64 = 96;
    let mut i: usize = 0;
    assert(total == clamp_u64(96 + sizes_sum_int(txs.take(0))));
    while i < transactions.len()
        invariant
            i <= transactions@.len(),
            txs == txs_view(transactions@),
            total == clamp_u64(96 + sizes_sum_int(txs.take(i as int))),
        decreases transactions@.len() - i,
    {
        let tx = &transactions[i];
        let preimage = crate::transaction::encode_tx_preimage(
            &tx.tx_type,
            tx.nonce,
            tx.gas_limit,
            tx.gas_price,
            tx.timestamp,
        );
        let pre_len = preimage.len() as u64;
        let with_tag = saturating_add_u64(pre_len, 9);
        let per_tx = saturating_add_u64(with_tag, tx.signature.len() as u64);
        proof {
            let t = txs[i as int];
            assert(pre_len == clamp_u64(pre_len as int));
            assert(with_tag == clamp_u64(pre_len + 9)) by {
                lemma_sat_add_clamp(pre_len as int, 9);
            }
            assert(per_tx == clamp_u64(tx_size_int(t))) by {
                lemma_sat_add_clamp(pre_len + 9, t.signature.len() as int);
            }
            lemma_sizes_sum_nonneg(txs.take(i as int));
        }
        let new_total = saturating_add_u64(total, per_tx);
        proof {
            let t = txs[i as int];
            lemma_sat_add_clamp(96 + sizes_sum_int(txs.take(i as int)), tx_size_int(t));
            assert(txs.take(i + 1).drop_last() =~= txs.take(i as int));
            assert(txs.take(i + 1).last() == t);
            assert(sizes_sum_int(txs.take(i + 1)) == sizes_sum_int(txs.take(i as int))
                + tx_size_int(t));
        }
        total = new_total;
        i = i + 1;
    }
    assert(txs.take(txs.len() as int) =~= txs);
    total
}

impl Block {
    /// Create a new block atop `previous_hash`: stamps the timestamp,
    /// computes the merkle root, builds the header with nonce 0 and
    /// version 1, and stores the header digest and canonical size. Never
    /// fails on well-formed inputs.
    pub fn new(
        height: u64,
        previous_hash: [u8; 32],
        transactions: Vec<Transaction>,
        difficulty: u32,
    ) -> (r: Result<Block, BlockchainError>)
        requires
            transactions@.len() <= u32::MAX,
        ensures
            r matches Ok(b) && fresh_block(
                b@,
                height,
                previous_hash@,
                txs_view(transactions@),
                difficulty,
            ),
    {
        let ghost txs = txs_view(transactions@);
        let timestamp = crate::clock::now_nanos();
        let transaction_count = transactions.len() as u32;
        let mut leaves: Vec<[u8; 32]> = Vec::new();
        let mut i: usize = 0;
        while i < transactions.len()
            invariant
                i <= transactions@.len(),
                txs == txs_view(transactions@),
                leaves@.len() == i,
                forall|j: int| 0 <= j < i ==> leaves@[j]@ == txs[j].hash,
            decreases transactions@.len() - i,
        {
            leaves.push(transactions[i].hash);
            i = i + 1;
        }
        assert(hashes_view(leaves@) =~= tx_hashes_of(txs));
        let root = merkle_root(leaves);
        let header = BlockHeader {
            height,
            previous_hash,
            merkle_root: root,
            timestamp,
            nonce: 0,
            difficulty,
            version: 1,
        };
        let preimage = encode_header_preimage(&header);
        let hash = hash_data(preimage.as_slice());
        let size = compute_size(&transactions);
        let block = Block { hash, header, transactions, transaction_count, size };
        Ok(block)
    }

    /// Create the genesis block: height 0, all-zero previous hash, no
    /// transactions, difficulty 1.
    pub fn genesis() -> (r: Result<Block, BlockchainError>)
        ensures
            r matches Ok(b) && fresh_block(b@, 0, zero_hash(), Seq::<TxV>::empty(), 1),
    {
        let previous_hash = [0u8; 32];
        assert(previous_hash@ =~= zero_hash());
        let transactions: Vec<Transaction> = Vec::new();
        assert(txs_view(transactions@) =~= Seq::<TxV>::empty());
        Self::new(0, previous_hash, transactions, 1)
    }

    /// Recompute the block hash from the current header. Always succeeds.
    pub fn calculate_hash(&self) -> (r: Result<[u8; 32], BlockchainError>)
        ensures
            r matches Ok(h) && h@ == spec_block_hash(self@.header),
    {
        let preimage = encode_header_preimage(&self.header);
        Ok(hash_data(preimage.as_slice()))
    }

    /// Compute the merkle root of an ordered transaction list. Always
    /// succeeds; the root of an empty list is the all-zero sentinel.
    pub fn calculate_merkle_root(transactions: &[Transaction]) -> (r: Result<
        [u8; 32],
        BlockchainError,
    >)
        ensures
            r matches Ok(h) && h@ == merkle_root_of(tx_hashes_of(txs_view(transactions@))),
    {
        let ghost txs = txs_view(transactions@);
        let mut leaves: Vec<[u8; 32]> = Vec::new();
        let mut i: usize = 0;
        while i < transactions.len()
            invariant
                i <= transactions@.len(),
                txs == txs_view(transactions@),
                leaves@.len() == i,
                forall|j: int| 0 <= j < i ==> leaves@[j]@ == txs[j].hash,
            decreases transactions@.len() - i,
        {
            leaves.push(transactions[i].hash);
            i = i + 1;
        }
        assert(hashes_view(leaves@) =~= tx_hashes_of(txs));
        Ok(merkle_root(leaves))
    }

    /// Validate the block's structure and contents against the wall clock:
    /// `Ok` implies the time-independent structure is sound; a structural
    /// fault is always reported, with the reason for the first failing
    /// check. The clock-skew bound itself is checked by `validate_at`.
    pub fn validate(&self) -> (r: Result<(), BlockchainError>)
        ensures
            r is Ok ==> block_statically_valid(self@),
            r matches Err(e) ==> block_issue_ok(self@, e),
    {
        let now = crate::clock::now_nanos();
        self.validate_at(now)
    }

    /// Validate the block as of the given current time: succeeds exactly
    /// when the time-independent structure is sound and the timestamp does
    /// not exceed the current time by more than the ten-minute clock-skew
    /// tolerance.
    pub fn validate_at(&self, now_ns: i64) -> (r: Result<(), BlockchainError>)
        ensures
            r is Ok <==> block_statically_valid(self@) && self@.header.timestamp <= sat_add_i64(
                now_ns,
                600000000000,
            ),
            r matches Err(e) ==> block_issue_ok(self@, e),
    {
        let calculated_hash = match self.calculate_hash() {
            Ok(h) => h,
            Err(e) => {
                return Err(e);
            }
        };
        if !bytes_eq(&calculated_hash, &self.hash) {
            return Err(BlockchainError::BlockValidationFailed {
                reason: String::from_str("Block hash mismatch"),
            });
        }
        let calculated_merkle = match Self::calculate_merkle_root(self.transactions.as_slice()) {
            Ok(h) => h,
            Err(e) => {
                return Err(e);
            }
        };
        if !bytes_eq(&calculated_merkle, &self.header.merkle_root) {
            return Err(BlockchainError::BlockValidationFailed {
                reason: String::from_str("Merkle root mismatch"),
            });
        }
        if self.transactions.len() > u32::MAX as usize
            || self.transaction_count != self.transactions.len() as u32 {
            return Err(BlockchainError::BlockValidationFailed {
                reason: String::from_str("Transaction count mismatch"),
            });
        }
        let ghost txs = self@.transactions;
        let mut i: usize = 0;
        while i < self.transactions.len()
            invariant
                i <= self.transactions@.len(),
                txs == txs_view(self.transactions@),
                self@.hash == spec_block_hash(self@.header),
                self@.header.merkle_root == merkle_root_of(tx_hashes_of(self@.transactions)),
                self@.transaction_count == self@.transactions.len(),
                forall|j: int| 0 <= j < i ==> tx_structurally_valid(#[trigger] txs[j]),
            decreases self.transactions@.len() - i,
        {
            match self.transactions[i].validate_structure() {
                Ok(_) => {}
                Err(e) => {
                    proof {
                        let w = i as int;
                        assert(0 <= w < self@.transactions.len());
                        assert(!tx_structurally_valid(self@.transactions[w]));
                        assert(exists|k: int|
                            0 <= k < self@.transactions.len() && !tx_structurally_valid(
                                #[trigger] self@.transactions[k],
                            ));
                        assert(forall|j: int|
                            0 <= j < w ==> tx_structurally_valid(#[trigger] self@.transactions[j]));
                        assert(exists|k: int|
                            {
                                &&& 0 <= k < self@.transactions.len()
                                &&& !tx_structurally_valid(#[trigger] self@.transactions[k])
                                &&& forall|j: int|
                                    0 <= j < k ==> tx_structurally_valid(
                                        #[trigger] self@.transactions[j],
                                    )
                                &&& e matches BlockchainError::InvalidTransaction { reason }
                                    && reason@ == tx_structure_issue(self@.transactions[k])
                            });
                    }
                    return Err(e);
                }
            }
            i = i + 1;
        }
        let max_future = saturating_add_i64(now_ns, 600000000000);
        if self.header.timestamp > max_future {
            return Err(BlockchainError::BlockValidationFailed {
                reason: String::from_str("Block timestamp too far in future"),
            });
        }
        Ok(())
    }

    /// Check that this block can legally follow the given predecessor:
    /// succeeds exactly when the height is the successor, the link matches
    /// the predecessor's hash, and the timestamp is strictly later.
    pub fn can_follow(&self, previous_block: &Block) -> (r: Result<(), BlockchainError>)
        ensures
            r is Ok <==> can_follow_ok(self@, previous_block@),
            r matches Err(e) ==> e matches BlockchainError::BlockValidationFailed { reason }
                && reason@ == follow_issue(self@, previous_block@),
    {
        if self.header.height == 0 || self.header.height - 1 != previous_block.header.height {
            return Err(BlockchainError::BlockValidationFailed {
                reason: String::from_str("Invalid height"),
            });
        }
        if !bytes_eq(&self.header.previous_hash, &previous_block.hash) {
            return Err(BlockchainError::BlockValidationFailed {
                reason: String::from_str("Previous hash mismatch"),
            });
        }
        if self.header.timestamp <= previous_block.header.timestamp {
            return Err(BlockchainError::BlockValidationFailed {
                reason: String::from_str("Block timestamp must be after previous block"),
            });
        }
        Ok(())
    }

    /// Total value moved by the transactions in this block, saturating at
    /// `u64::MAX`.
    pub fn total_transaction_value(&self) -> (r: u64)
        ensures
            r == sum_amounts(self@.transactions),
    {
        let ghost txs = self@.transactions;
        let mut total: u64 = 0;
        let mut i: usize = 0;
        assert(txs.take(0) =~= Seq::<TxV>::empty());
        while i < self.transactions.len()
            invariant
                i <= self.transactions@.len(),
                txs == txs_view(self.transactions@),
                total == sum_amounts(txs.take(i as int)),
            decreases self.transactions@.len() - i,
        {
            let a = self.transactions[i].amount();
            total = saturating_add_u64(total, a);
            proof {
                assert(txs.take(i + 1).drop_last() =~= txs.take(i as int));
                assert(txs.take(i + 1).last() == txs[i as int]);
            }
            i = i + 1;
        }
        assert(txs.take(txs.len() as int) =~= txs);
        total
    }

    /// Total fees offered by the transactions in this block, saturating at
    /// `u64::MAX`.
    pub fn total_fees(&self) -> (r: u64)
        ensures
            r == sum_fees(self@.transactions),
    {
        let ghost txs = self@.transactions;
        let mut total: u64 = 0;
        let mut i: usize = 0;
        assert(txs.take(0) =~= Seq::<TxV>::empty());
        while i < self.transactions.len()
            invariant
                i <= self.transactions@.len(),
                txs == txs_view(self.transactions@),
                total == sum_fees(txs.take(i as int)),
            decreases self.transactions@.len() - i,
        {
            let f = self.transactions[i].total_fee();
            total = saturating_add_u64(total, f);
            proof {
                assert(txs.take(i + 1).drop_last() =~= txs.take(i as int));
                assert(txs.take(i + 1).last() == txs[i as int]);
            }
            i = i + 1;
        }
        assert(txs.take(txs.len() as int) =~= txs);
        total
    }

    /// Whether the block contains a transaction with the given hash.
    pub fn contains_transaction(&self, tx_hash: &[u8; 32]) -> (r: bool)
        ensures
            r == spec_contains_tx(self@.transactions, tx_hash@),
    {
        let ghost txs = self@.transactions;
        let mut i: usize = 0;
        while i < self.transactions.len()
            invariant
                i <= self.transactions@.len(),
                txs == txs_view(self.transactions@),
                forall|j: int| 0 <= j < i ==> (#[trigger] txs[j].hash) != tx_hash@,
            decreases self.transactions@.len() - i,
        {
            if bytes_eq(&self.transactions[i].hash, tx_hash) {
                assert(txs[i as int].hash == tx_hash@);
                return true;
            }
            i = i + 1;
        }
        false
    }

    /// Look up the first transaction with the given hash.
    pub fn get_transaction(&self, tx_hash: &[u8; 32]) -> (r: Option<&Transaction>)
        ensures
            match r {
                Some(t) => exists|i: int|
                    {
                        &&& 0 <= i < self@.transactions.len()
                        &&& (#[trigger] self@.transactions[i]).hash == tx_hash@
                        &&& t@ == self@.transactions[i]
                        &&& forall|j: int| 0 <= j < i ==> self@.transactions[j].hash != tx_hash@
                    },
                None => !spec_contains_tx(self@.transactions, tx_hash@),
            },
    {
        let ghost txs = self@.transactions;
        let mut i: usize = 0;
        while i < self.transactions.len()
            invariant
                i <= self.transactions@.len(),
                txs == txs_view(self.transactions@),
                forall|j: int| 0 <= j < i ==> (#[trigger] txs[j]).hash != tx_hash@,
            decreases self.transactions@.len() - i,
        {
            if bytes_eq(&self.transactions[i].hash, tx_hash) {
                let t = &self.transactions[i];
                proof {
                    let w = i as int;
                    assert(0 <= w < self@.transactions.len());
                    assert(self@.transactions[w].hash == tx_hash@);
                    assert(t@ == self@.transactions[w]);
                    assert(forall|j: int| 0 <= j < w ==> self@.transactions[j].hash != tx_hash@);
                    assert(exists|k: int|
                        {
                            &&& 0 <= k < self@.transactions.len()
                            &&& (#[trigger] self@.transactions[k]).hash == tx_hash@
                            &&& t@ == self@.transactions[k]
                            &&& forall|j: int| 0 <= j < k ==> self@.transactions[j].hash != tx_hash@
                        });
                }
                return Some(t);
            }
            i = i + 1;
        }
        None
    }

    /// Overwrite the nonce with externally supplied proof material and
    /// recompute the block hash — the only post-construction mutation a
    /// block permits. Everything else is unchanged.
    pub fn set_nonce(&mut self, nonce: u64) -> (r: Result<(), BlockchainError>)
        ensures
            r is Ok,
            final(self)@.header == (HeaderV { nonce, ..old(self)@.header }),
            final(self)@.hash == spec_block_hash(final(self)@.header),
            final(self)@.transactions == old(self)@.transactions,
            final(self)@.transaction_count == old(self)@.transaction_count,
            final(self)@.size == old(self)@.size,
    {
        self.header.nonce = nonce;
        let preimage = encode_header_preimage(&self.header);
        self.hash = hash_data(preimage.as_slice());
        assert(self@.header =~= (HeaderV { nonce, ..old(self)@.header }));
        Ok(())
    }
}

/// Whether a transaction with the given hash occurs in the sequence.
pub open spec fn spec_contains_tx(txs: Seq<TxV>, h: Seq<u8>) -> bool {
    exists|i: int| 0 <= i < txs.len() && (#[trigger] txs[i]).hash == h
}

/// Saturating sum of the values moved by the transactions.
pub open spec fn sum_amounts(txs: Seq<TxV>) -> u64
    decreases txs.len(),
{
    if txs.len() == 0 {
        0
    } else {
        sat_add_u64(sum_amounts(txs.drop_last()), kind_amount(txs.last().kind))
    }
}

/// Saturating sum of the fees offered by the transactions.
pub open spec fn sum_fees(txs: Seq<TxV>) -> u64
    decreases txs.len(),
{
    if txs.len() == 0 {
        0
    } else {
        sat_add_u64(sum_fees(txs.drop_last()), sat_mul_u64(txs.last().gas_limit, txs.last().gas_price))
    }
}

} // verus!
