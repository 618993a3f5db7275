//! The transaction entity: an immutable-after-creation record of a value
//! transfer, contract deployment, or contract call. Its identity hash is
//! computed over the canonical encoding of `{shape, nonce, gas_limit,
//! gas_price, timestamp}` only — signature and status are excluded, so
//! signing and status updates never change identity.

use vstd::prelude::*;

use crate::arith::{sat_mul_u64, saturating_mul_u64};
use crate::encoding::{copy_bytes, i64_bytes, push_bytes, push_i64, push_u64, u64_bytes};
use crate::errors::BlockchainError;
use crate::hashing::{bytes_eq, hash_data, sha256_of, spec_address_nonzero, validate_address};

verus! {

/// Mathematical model of a transaction shape.
#[verifier::ext_equal]
pub enum TxKindV {
    Transfer { from: Seq<u8>, to: Seq<u8>, amount: u64 },
    Deploy { from: Seq<u8>, code: Seq<u8>, init_data: Seq<u8> },
    Call { from: Seq<u8>, to: Seq<u8>, data: Seq<u8>, amount: u64 },
}

/// Mathematical model of a transaction status.
#[verifier::ext_equal]
pub enum TxStatusV {
    Pending,
    Confirmed { block_height: u64, block_hash: Seq<u8> },
    Failed { reason: Seq<char> },
    Rejected { reason: Seq<char> },
}

/// Mathematical model of a whole transaction.
#[verifier::ext_equal]
pub struct TxV {
    pub hash: Seq<u8>,
    pub kind: TxKindV,
    pub nonce: u64,
    pub gas_limit: u64,
    pub gas_price: u64,
    pub timestamp: i64,
    pub signature: Seq<u8>,
    pub status: TxStatusV,
}

/// Transaction shapes supported by the ledger.
#[derive(Debug, PartialEq, Eq)]
pub enum TransactionType {
    /// Simple transfer between accounts.
    Transfer { from: [u8; 20], to: [u8; 20], amount: u64 },
    /// Smart contract deployment.
    Deploy { from: [u8; 20], code: Vec<u8>, init_data: Vec<u8> },
    /// Smart contract call.
    Call { from: [u8; 20], to: [u8; 20], data: Vec<u8>, amount: u64 },
}

impl View for TransactionType {
    type V = TxKindV;

    open spec fn view(&self) -> TxKindV {
        match self {
            TransactionType::Transfer { from, to, amount } => TxKindV::Transfer {
                from: from@,
                to: to@,
                amount: *amount,
            },
            TransactionType::Deploy { from, code, init_data } => TxKindV::Deploy {
                from: from@,
                code: code@,
                init_data: init_data@,
            },
            TransactionType::Call { from, to, data, amount } => TxKindV::Call {
                from: from@,
                to: to@,
                data: data@,
                amount: *amount,
            },
        }
    }
}

/// Transaction lifecycle status. Pending is the only valid start state;
/// Confirmed, Failed and Rejected are terminal.
#[derive(Debug, PartialEq, Eq)]
pub enum TransactionStatus {
    /// Pending in the mempool.
    Pending,
    /// Included in a block.
    Confirmed { block_height: u64, block_hash: [u8; 32] },
    /// Failed validation.
    Failed { reason: String },
    /// Rejected by validation.
    Rejected { reason: String },
}

impl View for TransactionStatus {
    type V = TxStatusV;

    open spec fn view(&self) -> TxStatusV {
        match self {
            TransactionStatus::Pending => TxStatusV::Pending,
            TransactionStatus::Confirmed { block_height, block_hash } => TxStatusV::Confirmed {
                block_height: *block_height,
                block_hash: block_hash@,
            },
            TransactionStatus::Failed { reason } => TxStatusV::Failed { reason: reason@ },
            TransactionStatus::Rejected { reason } => TxStatusV::Rejected { reason: reason@ },
        }
    }
}

/// Core transaction record.
#[derive(Debug)]
pub struct Transaction {
    /// Identity hash over the canonical encoding of the hashed fields.
    pub hash: [u8; 32],
    /// Shape and shape-specific data.
    pub tx_type: TransactionType,
    /// Replay-protection nonce.
    pub nonce: u64,
    /// Gas limit for execution.
    pub gas_limit: u64,
    /// Gas price (fee per gas unit).
    pub gas_price: u64,
    /// Creation timestamp, nanoseconds since the Unix epoch.
    pub timestamp: i64,
    /// Digital signature bytes; empty until signed.
    pub signature: Vec<u8>,
    /// Current lifecycle status.
    pub status: TransactionStatus,
}

impl View for Transaction {
    type V = TxV;

    open spec fn view(&self) -> TxV {
        TxV {
            hash: self.hash@,
            kind: self.tx_type@,
            nonce: self.nonce,
            gas_limit: self.gas_limit,
            gas_price: self.gas_price,
            timestamp: self.timestamp,
            signature: self.signature@,
            status: self.status@,
        }
    }
}

/// Canonical bytes of a transaction shape: a tag byte, then the fields,
/// variable-length fields prefixed by their length.
pub open spec fn kind_bytes(k: TxKindV) -> Seq<u8> {
    match k {
        TxKindV::Transfer { from, to, amount } => seq![0u8] + from + to + u64_bytes(amount),
        TxKindV::Deploy { from, code, init_data } => seq![1u8] + from + u64_bytes(
            code.len() as u64,
        ) + code + u64_bytes(init_data.len() as u64) + init_data,
        TxKindV::Call { from, to, data, amount } => seq![2u8] + from + to + u64_bytes(
            data.len() as u64,
        ) + data + u64_bytes(amount),
    }
}

/// Canonical encoding of the hashed fields of a transaction.
pub open spec fn tx_preimage(
    kind: TxKindV,
    nonce: u64,
    gas_limit: u64,
    gas_price: u64,
    timestamp: i64,
) -> Seq<u8> {
    kind_bytes(kind) + u64_bytes(nonce) + u64_bytes(gas_limit) + u64_bytes(gas_price) + i64_bytes(
        timestamp,
    )
}

/// The identity hash of a transaction: the digest of the canonical
/// encoding of its hashed fields. Signature and status do not appear.
pub open spec fn spec_tx_hash(t: TxV) -> Seq<u8> {
    sha256_of(tx_preimage(t.kind, t.nonce, t.gas_limit, t.gas_price, t.timestamp))
}

/// Signature and status never affect a transaction's identity hash: two
/// transactions that agree on the hashed fields have equal hashes.
pub proof fn lemma_tx_hash_ignores_signature_and_status(a: TxV, b: TxV)
    requires
        a.kind == b.kind,
        a.nonce == b.nonce,
        a.gas_limit == b.gas_limit,
        a.gas_price == b.gas_price,
        a.timestamp == b.timestamp,
    ensures
        spec_tx_hash(a) == spec_tx_hash(b),
{
}

/// A transaction shape whose fields have the widths the canonical
/// encoding expects: 20-byte addresses, and variable-length fields whose
/// length fits in the 64-bit length prefix.
pub open spec fn kind_well_formed(k: TxKindV) -> bool {
    match k {
        TxKindV::Transfer { from, to, amount: _ } => from.len() == 20 && to.len() == 20,
        TxKindV::Deploy { from, code, init_data } => from.len() == 20 && code.len() <= u64::MAX
            && init_data.len() <= u64::MAX,
        TxKindV::Call { from, to, data, amount: _ } => from.len() == 20 && to.len() == 20
            && data.len() <= u64::MAX,
    }
}

/// The model of any shape held in the executable type is well formed for
/// the encoding.
pub proof fn lemma_kind_well_formed(t: &TransactionType)
    ensures
        kind_well_formed(t@),
{
    match t {
        TransactionType::Transfer { .. } => {}
        TransactionType::Deploy { from: _, code, init_data } => {
            vstd::std_specs::vec::axiom_spec_len(code);
            vstd::std_specs::vec::axiom_spec_len(init_data);
        }
        TransactionType::Call { from: _, to: _, data, amount: _ } => {
            vstd::std_specs::vec::axiom_spec_len(data);
        }
    }
}

/// The first byte of a shape encoding is the variant tag.
proof fn lemma_kind_bytes_tag(k: TxKindV)
    ensures
        kind_bytes(k)[0] == (match k {
            TxKindV::Transfer { .. } => 0u8,
            TxKindV::Deploy { .. } => 1u8,
            TxKindV::Call { .. } => 2u8,
        }),
{
    match k {
        TxKindV::Transfer { from, to, amount } => {
            let s0 = seq![0u8];
            assert((s0 + from)[0] == s0[0]);
            assert(((s0 + from) + to)[0] == (s0 + from)[0]);
            assert((((s0 + from) + to) + u64_bytes(amount))[0] == ((s0 + from) + to)[0]);
        }
        TxKindV::Deploy { from, code, init_data } => {
            let s0 = seq![1u8];
            let p1 = s0 + from;
            let p2 = p1 + u64_bytes(code.len() as u64);
            let p3 = p2 + code;
            let p4 = p3 + u64_bytes(init_data.len() as u64);
            assert(p1[0] == s0[0]);
            assert(p2[0] == p1[0]);
            assert(p3[0] == p2[0]);
            assert(p4[0] == p3[0]);
            assert((p4 + init_data)[0] == p4[0]);
        }
        TxKindV::Call { from, to, data, amount } => {
            let s0 = seq![2u8];
            let p1 = s0 + from;
            let p2 = p1 + to;
            let p3 = p2 + u64_bytes(data.len() as u64);
            let p4 = p3 + data;
            assert(p1[0] == s0[0]);
            assert(p2[0] == p1[0]);
            assert(p3[0] == p2[0]);
            assert(p4[0] == p3[0]);
            assert((p4 + u64_bytes(amount))[0] == p4[0]);
        }
    }
}

/// The canonical shape encoding is injective over well-formed shapes: no
/// two distinct shapes produce the same bytes.
pub proof fn lemma_kind_bytes_injective(k1: TxKindV, k2: TxKindV)
    requires
        kind_bytes(k1) == kind_bytes(k2),
        kind_well_formed(k1),
        kind_well_formed(k2),
    ensures
        k1 == k2,
{
    lemma_kind_bytes_tag(k1);
    lemma_kind_bytes_tag(k2);
    match (k1, k2) {
        (
            TxKindV::Transfer { from: f1, to: t1, amount: a1 },
            TxKindV::Transfer { from: f2, to: t2, amount: a2 },
        ) => {
            crate::encoding::lemma_concat_split(
                (seq![0u8] + f1) + t1,
                u64_bytes(a1),
                (seq![0u8] + f2) + t2,
                u64_bytes(a2),
            );
            crate::encoding::lemma_u64_bytes_injective(a1, a2);
            crate::encoding::lemma_concat_split(seq![0u8] + f1, t1, seq![0u8] + f2, t2);
            crate::encoding::lemma_concat_split(seq![0u8], f1, seq![0u8], f2);
            assert(k1 =~= k2);
        }
        (
            TxKindV::Deploy { from: f1, code: c1, init_data: i1 },
            TxKindV::Deploy { from: f2, code: c2, init_data: i2 },
        ) => {
            let head1 = (seq![1u8] + f1) + u64_bytes(c1.len() as u64);
            let head2 = (seq![1u8] + f2) + u64_bytes(c2.len() as u64);
            let tail1 = c1 + (u64_bytes(i1.len() as u64) + i1);
            let tail2 = c2 + (u64_bytes(i2.len() as u64) + i2);
            vstd::seq_lib::lemma_concat_associative(
                head1 + c1,
                u64_bytes(i1.len() as u64),
                i1,
            );
            vstd::seq_lib::lemma_concat_associative(head1, c1, u64_bytes(i1.len() as u64) + i1);
            vstd::seq_lib::lemma_concat_associative(
                head2 + c2,
                u64_bytes(i2.len() as u64),
                i2,
            );
            vstd::seq_lib::lemma_concat_associative(head2, c2, u64_bytes(i2.len() as u64) + i2);
            assert(kind_bytes(k1) == head1 + tail1);
            assert(kind_bytes(k2) == head2 + tail2);
            crate::encoding::lemma_concat_split_prefix(head1, tail1, head2, tail2);
            crate::encoding::lemma_concat_split(
                seq![1u8] + f1,
                u64_bytes(c1.len() as u64),
                seq![1u8] + f2,
                u64_bytes(c2.len() as u64),
            );
            crate::encoding::lemma_u64_bytes_injective(c1.len() as u64, c2.len() as u64);
            assert(c1.len() == c2.len());
            crate::encoding::lemma_concat_split(seq![1u8], f1, seq![1u8], f2);
            crate::encoding::lemma_concat_split_prefix(
                c1,
                u64_bytes(i1.len() as u64) + i1,
                c2,
                u64_bytes(i2.len() as u64) + i2,
            );
            crate::encoding::lemma_concat_split_prefix(
                u64_bytes(i1.len() as u64),
                i1,
                u64_bytes(i2.len() as u64),
                i2,
            );
            assert(k1 =~= k2);
        }
        (
            TxKindV::Call { from: f1, to: t1, data: d1, amount: a1 },
            TxKindV::Call { from: f2, to: t2, data: d2, amount: a2 },
        ) => {
            let head1 = ((seq![2u8] + f1) + t1) + u64_bytes(d1.len() as u64);
            let head2 = ((seq![2u8] + f2) + t2) + u64_bytes(d2.len() as u64);
            let tail1 = d1 + u64_bytes(a1);
            let tail2 = d2 + u64_bytes(a2);
            vstd::seq_lib::lemma_concat_associative(head1, d1, u64_bytes(a1));
            vstd::seq_lib::lemma_concat_associative(head2, d2, u64_bytes(a2));
            assert(kind_bytes(k1) == head1 + tail1);
            assert(kind_bytes(k2) == head2 + tail2);
            crate::encoding::lemma_concat_split_prefix(head1, tail1, head2, tail2);
            crate::encoding::lemma_concat_split(
                (seq![2u8] + f1) + t1,
                u64_bytes(d1.len() as u64),
                (seq![2u8] + f2) + t2,
                u64_bytes(d2.len() as u64),
            );
            crate::encoding::lemma_u64_bytes_injective(d1.len() as u64, d2.len() as u64);
            assert(d1.len() == d2.len());
            crate::encoding::lemma_concat_split(seq![2u8] + f1, t1, seq![2u8] + f2, t2);
            crate::encoding::lemma_concat_split(seq![2u8], f1, seq![2u8], f2);
            crate::encoding::lemma_concat_split(d1, u64_bytes(a1), d2, u64_bytes(a2));
            crate::encoding::lemma_u64_bytes_injective(a1, a2);
            assert(k1 =~= k2);
        }
        _ => {
            assert(kind_bytes(k1)[0] == kind_bytes(k2)[0]);
        }
    }
}

/// The canonical encoding of the hashed fields is injective: over
/// well-formed shapes, no two distinct field combinations canonicalize
/// identically. This is the property every downstream integrity check
/// leans on: equal identity preimages mean equal hashed fields.
pub proof fn lemma_tx_preimage_injective(
    k1: TxKindV,
    n1: u64,
    gl1: u64,
    gp1: u64,
    ts1: i64,
    k2: TxKindV,
    n2: u64,
    gl2: u64,
    gp2: u64,
    ts2: i64,
)
    requires
        tx_preimage(k1, n1, gl1, gp1, ts1) == tx_preimage(k2, n2, gl2, gp2, ts2),
        kind_well_formed(k1),
        kind_well_formed(k2),
    ensures
        k1 == k2,
        n1 == n2,
        gl1 == gl2,
        gp1 == gp2,
        ts1 == ts2,
{
    let a3 = ((kind_bytes(k1) + u64_bytes(n1)) + u64_bytes(gl1)) + u64_bytes(gp1);
    let b3 = ((kind_bytes(k2) + u64_bytes(n2)) + u64_bytes(gl2)) + u64_bytes(gp2);
    crate::encoding::lemma_concat_split(a3, i64_bytes(ts1), b3, i64_bytes(ts2));
    crate::encoding::lemma_i64_bytes_injective(ts1, ts2);
    let a2 = (kind_bytes(k1) + u64_bytes(n1)) + u64_bytes(gl1);
    let b2 = (kind_bytes(k2) + u64_bytes(n2)) + u64_bytes(gl2);
    crate::encoding::lemma_concat_split(a2, u64_bytes(gp1), b2, u64_bytes(gp2));
    crate::encoding::lemma_u64_bytes_injective(gp1, gp2);
    crate::encoding::lemma_concat_split(
        kind_bytes(k1) + u64_bytes(n1),
        u64_bytes(gl1),
        kind_bytes(k2) + u64_bytes(n2),
        u64_bytes(gl2),
    );
    crate::encoding::lemma_u64_bytes_injective(gl1, gl2);
    crate::encoding::lemma_concat_split(kind_bytes(k1), u64_bytes(n1), kind_bytes(k2), u64_bytes(n2));
    crate::encoding::lemma_u64_bytes_injective(n1, n2);
    lemma_kind_bytes_injective(k1, k2);
}

/// Build the canonical encoding of the hashed fields.
pub fn encode_tx_preimage(
    tx_type: &TransactionType,
    nonce: u64,
    gas_limit: u64,
    gas_price: u64,
    timestamp: i64,
) -> (r: Vec<u8>)
    ensures
        r@ == tx_preimage(tx_type@, nonce, gas_limit, gas_price, timestamp),
{
    let mut out: Vec<u8> = Vec::new();
    match tx_type {
        TransactionType::Transfer { from, to, amount } => {
            out.push(0u8);
            push_bytes(&mut out, from.as_slice());
            push_bytes(&mut out, to.as_slice());
            push_u64(&mut out, *amount);
            assert(out@ =~= kind_bytes(tx_type@));
        }
        TransactionType::Deploy { from, code, init_data } => {
            out.push(1u8);
            push_bytes(&mut out, from.as_slice());
            push_u64(&mut out, code.len() as u64);
            push_bytes(&mut out, code.as_slice());
            push_u64(&mut out, init_data.len() as u64);
            push_bytes(&mut out, init_data.as_slice());
            assert(out@ =~= kind_bytes(tx_type@));
        }
        TransactionType::Call { from, to, data, amount } => {
            out.push(2u8);
            push_bytes(&mut out, from.as_slice());
            push_bytes(&mut out, to.as_slice());
            push_u64(&mut out, data.len() as u64);
            push_bytes(&mut out, data.as_slice());
            push_u64(&mut out, *amount);
            assert(out@ =~= kind_bytes(tx_type@));
        }
    }
    push_u64(&mut out, nonce);
    push_u64(&mut out, gas_limit);
    push_u64(&mut out, gas_price);
    push_i64(&mut out, timestamp);
    assert(out@ =~= tx_preimage(tx_type@, nonce, gas_limit, gas_price, timestamp));
    out
}

/// A transaction freshly built by a constructor: the requested fields are
/// stored as given, the signature is empty, the status is Pending, and the
/// stored hash equals the identity hash of the stored fields.
pub open spec fn fresh_tx(t: TxV, kind: TxKindV, nonce: u64, gas_limit: u64, gas_price: u64) -> bool {
    &&& t.kind == kind
    &&& t.nonce == nonce
    &&& t.gas_limit == gas_limit
    &&& t.gas_price == gas_price
    &&& t.signature.len() == 0
    &&& t.status is Pending
    &&& t.hash == spec_tx_hash(t)
}

/// A structurally sound transaction: addresses are not the reserved zero
/// form, a transfer moves a non-zero amount to a distinct account, deployed
/// code is non-empty, gas parameters are non-zero, and the stored hash
/// matches a fresh recomputation.
pub open spec fn tx_structurally_valid(t: TxV) -> bool {
    &&& match t.kind {
        TxKindV::Transfer { from, to, amount } => {
            &&& spec_address_nonzero(from)
            &&& spec_address_nonzero(to)
            &&& amount != 0
            &&& from != to
        }
        TxKindV::Deploy { from, code, init_data: _ } => {
            &&& spec_address_nonzero(from)
            &&& code.len() > 0
        }
        TxKindV::Call { from, to, data: _, amount: _ } => {
            &&& spec_address_nonzero(from)
            &&& spec_address_nonzero(to)
        }
    }
    &&& t.gas_limit != 0
    &&& t.gas_price != 0
    &&& t.hash == spec_tx_hash(t)
}

/// The reason reported for the first failing structural check. Meaningful
/// only when `tx_structurally_valid` does not hold.
pub open spec fn tx_structure_issue(t: TxV) -> Seq<char> {
    match t.kind {
        TxKindV::Transfer { from, to, amount } => if !spec_address_nonzero(from) {
            "Invalid sender address"@
        } else if !spec_address_nonzero(to) {
            "Invalid recipient address"@
        } else if amount == 0 {
            "Transfer amount cannot be zero"@
        } else if from == to {
            "Cannot transfer to self"@
        } else {
            tx_gas_or_hash_issue(t)
        },
        TxKindV::Deploy { from, code, init_data: _ } => if !spec_address_nonzero(from) {
            "Invalid deployer address"@
        } else if code.len() == 0 {
            "Contract code cannot be empty"@
        } else {
            tx_gas_or_hash_issue(t)
        },
        TxKindV::Call { from, to, data: _, amount: _ } => if !spec_address_nonzero(from) {
            "Invalid caller address"@
        } else if !spec_address_nonzero(to) {
            "Invalid contract address"@
        } else {
            tx_gas_or_hash_issue(t)
        },
    }
}

/// The reason for a failing gas or hash check, after the shape checks pass.
pub open spec fn tx_gas_or_hash_issue(t: TxV) -> Seq<char> {
    if t.gas_limit == 0 {
        "Gas limit cannot be zero"@
    } else if t.gas_price == 0 {
        "Gas price cannot be zero"@
    } else {
        "Transaction hash mismatch"@
    }
}

/// The sender of a transaction, uniform over the three shapes.
pub open spec fn kind_sender(k: TxKindV) -> Seq<u8> {
    match k {
        TxKindV::Transfer { from, .. } => from,
        TxKindV::Deploy { from, .. } => from,
        TxKindV::Call { from, .. } => from,
    }
}

/// The recipient of a transaction; a deployment has none.
pub open spec fn kind_recipient(k: TxKindV) -> Option<Seq<u8>> {
    match k {
        TxKindV::Transfer { to, .. } => Some(to),
        TxKindV::Call { to, .. } => Some(to),
        TxKindV::Deploy { .. } => None,
    }
}

/// The value moved by a transaction; a deployment moves nothing.
pub open spec fn kind_amount(k: TxKindV) -> u64 {
    match k {
        TxKindV::Transfer { amount, .. } => amount,
        TxKindV::Call { amount, .. } => amount,
        TxKindV::Deploy { .. } => 0,
    }
}

impl Transaction {
    /// Create a new transfer transaction. Never fails on well-formed
    /// inputs: the result is always `Ok`.
    pub fn new_transfer(
        from: [u8; 20],
        to: [u8; 20],
        amount: u64,
        nonce: u64,
        gas_limit: u64,
        gas_price: u64,
    ) -> (r: Result<Transaction, BlockchainError>)
        ensures
            r matches Ok(tx) && fresh_tx(
                tx@,
                TxKindV::Transfer { from: from@, to: to@, amount },
                nonce,
                gas_limit,
                gas_price,
            ),
    {
        let tx_type = TransactionType::Transfer { from, to, amount };
        Self::new(tx_type, nonce, gas_limit, gas_price)
    }

    /// Create a new contract call transaction. Never fails on well-formed
    /// inputs: the result is always `Ok`.
    pub fn new_call(
        from: [u8; 20],
        to: [u8; 20],
        data: Vec<u8>,
        amount: u64,
        nonce: u64,
        gas_limit: u64,
        gas_price: u64,
    ) -> (r: Result<Transaction, BlockchainError>)
        ensures
            r matches Ok(tx) && fresh_tx(
                tx@,
                TxKindV::Call { from: from@, to: to@, data: data@, amount },
                nonce,
                gas_limit,
                gas_price,
            ),
    {
        let tx_type = TransactionType::Call { from, to, data, amount };
        Self::new(tx_type, nonce, gas_limit, gas_price)
    }

    /// Create a new contract deployment transaction. Never fails on
    /// well-formed inputs: the result is always `Ok`.
    pub fn new_deploy(
        from: [u8; 20],
        code: Vec<u8>,
        init_data: Vec<u8>,
        nonce: u64,
        gas_limit: u64,
        gas_price: u64,
    ) -> (r: Result<Transaction, BlockchainError>)
        ensures
            r matches Ok(tx) && fresh_tx(
                tx@,
                TxKindV::Deploy { from: from@, code: code@, init_data: init_data@ },
                nonce,
                gas_limit,
                gas_price,
            ),
    {
        let tx_type = TransactionType::Deploy { from, code, init_data };
        Self::new(tx_type, nonce, gas_limit, gas_price)
    }

    /// Internal constructor: stamps the creation time, leaves the signature
    /// empty, starts the lifecycle at Pending, and stores the identity hash
    /// of the stored fields.
    fn new(tx_type: TransactionType, nonce: u64, gas_limit: u64, gas_price: u64) -> (r: Result<
        Transaction,
        BlockchainError,
    >)
        ensures
            r matches Ok(tx) && fresh_tx(tx@, tx_type@, nonce, gas_limit, gas_price),
    {
        let timestamp = crate::clock::now_nanos();
        let preimage = encode_tx_preimage(&tx_type, nonce, gas_limit, gas_price, timestamp);
        let hash = hash_data(preimage.as_slice());
        let tx = Transaction {
            hash,
            tx_type,
            nonce,
            gas_limit,
            gas_price,
            timestamp,
            signature: Vec::new(),
            status: TransactionStatus::Pending,
        };
        Ok(tx)
    }

    /// Recompute the identity hash from the current hashed fields. Always
    /// succeeds; the result is the digest of the canonical encoding.
    pub fn calculate_hash(&self) -> (r: Result<[u8; 32], BlockchainError>)
        ensures
            r matches Ok(h) && h@ == spec_tx_hash(self@),
    {
        let preimage = encode_tx_preimage(
            &self.tx_type,
            self.nonce,
            self.gas_limit,
            self.gas_price,
            self.timestamp,
        );
        Ok(hash_data(preimage.as_slice()))
    }

    /// The sender address of the transaction.
    pub fn sender(&self) -> (r: [u8; 20])
        ensures
            r@ == kind_sender(self@.kind),
    {
        match &self.tx_type {
            TransactionType::Transfer { from, .. } => *from,
            TransactionType::Deploy { from, .. } => *from,
            TransactionType::Call { from, .. } => *from,
        }
    }

    /// The recipient address, if the shape has one.
    pub fn recipient(&self) -> (r: Option<[u8; 20]>)
        ensures
            match r {
                Some(a) => kind_recipient(self@.kind) == Some(a@),
                None => kind_recipient(self@.kind) is None,
            },
    {
        match &self.tx_type {
            TransactionType::Transfer { to, .. } => Some(*to),
            TransactionType::Call { to, .. } => Some(*to),
            TransactionType::Deploy { .. } => None,
        }
    }

    /// The value moved by the transaction.
    pub fn amount(&self) -> (r: u64)
        ensures
            r == kind_amount(self@.kind),
    {
        match &self.tx_type {
            TransactionType::Transfer { amount, .. } => *amount,
            TransactionType::Call { amount, .. } => *amount,
            TransactionType::Deploy { .. } => 0,
        }
    }

    /// Total fee offered: gas limit times gas price, saturating at
    /// `u64::MAX` (the documented overflow policy for fee arithmetic).
    pub fn total_fee(&self) -> (r: u64)
        ensures
            r == sat_mul_u64(self.gas_limit, self.gas_price),
    {
        saturating_mul_u64(self.gas_limit, self.gas_price)
    }

    /// Validate the transaction's structure. Side-effect-free: returns `Ok`
    /// exactly when the transaction is structurally sound, and otherwise
    /// the reason for the first failing check.
    pub fn validate_structure(&self) -> (r: Result<(), BlockchainError>)
        ensures
            r is Ok <==> tx_structurally_valid(self@),
            r matches Err(e) ==> e matches BlockchainError::InvalidTransaction { reason }
                && reason@ == tx_structure_issue(self@),
    {
        match &self.tx_type {
            TransactionType::Transfer { from, to, amount } => {
                if !validate_address(from) {
                    return Err(BlockchainError::InvalidTransaction {
                        reason: String::from_str("Invalid sender address"),
                    });
                }
                if !validate_address(to) {
                    return Err(BlockchainError::InvalidTransaction {
                        reason: String::from_str("Invalid recipient address"),
                    });
                }
                if *amount == 0 {
                    return Err(BlockchainError::InvalidTransaction {
                        reason: String::from_str("Transfer amount cannot be zero"),
                    });
                }
                if bytes_eq(from, to) {
                    return Err(BlockchainError::InvalidTransaction {
                        reason: String::from_str("Cannot transfer to self"),
                    });
                }
            }
            TransactionType::Deploy { from, code, .. } => {
                if !validate_address(from) {
                    return Err(BlockchainError::InvalidTransaction {
                        reason: String::from_str("Invalid deployer address"),
                    });
                }
                if code.is_empty() {
                    return Err(BlockchainError::InvalidTransaction {
                        reason: String::from_str("Contract code cannot be empty"),
                    });
                }
            }
            TransactionType::Call { from, to, .. } => {
                if !validate_address(from) {
                    return Err(BlockchainError::InvalidTransaction {
                        reason: String::from_str("Invalid caller address"),
                    });
                }
                if !validate_address(to) {
                    return Err(BlockchainError::InvalidTransaction {
                        reason: String::from_str("Invalid contract address"),
                    });
                }
            }
        }
        if self.gas_limit == 0 {
            return Err(BlockchainError::InvalidTransaction {
                reason: String::from_str("Gas limit cannot be zero"),
            });
        }
        if self.gas_price == 0 {
            return Err(BlockchainError::InvalidTransaction {
                reason: String::from_str("Gas price cannot be zero"),
            });
        }
        let calculated = match self.calculate_hash() {
            Ok(h) => h,
            Err(e) => {
                return Err(e);
            }
        };
        if !bytes_eq(&calculated, &self.hash) {
            return Err(BlockchainError::InvalidTransaction {
                reason: String::from_str("Transaction hash mismatch"),
            });
        }
        Ok(())
    }

    /// Overwrite the lifecycle status. Unconditional: callers are
    /// responsible for respecting the forward-only lifecycle. The identity
    /// hash and every other field are unchanged.
    pub fn update_status(&mut self, status: TransactionStatus)
        ensures
            final(self)@ == (TxV { status: status@, ..old(self)@ }),
    {
        self.status = status;
        assert(self@ =~= (TxV { status: self.status@, ..old(self)@ }));
    }
}

impl Clone for Transaction {
    /// A clone models the same transaction: the views agree.
    fn clone(&self) -> (r: Self)
        ensures
            r@ == self@,
    {
        let tx_type = match &self.tx_type {
            TransactionType::Transfer { from, to, amount } => TransactionType::Transfer {
                from: *from,
                to: *to,
                amount: *amount,
            },
            TransactionType::Deploy { from, code, init_data } => TransactionType::Deploy {
                from: *from,
                code: copy_bytes(code),
                init_data: copy_bytes(init_data),
            },
            TransactionType::Call { from, to, data, amount } => TransactionType::Call {
                from: *from,
                to: *to,
                data: copy_bytes(data),
                amount: *amount,
            },
        };
        let status = match &self.status {
            TransactionStatus::Pending => TransactionStatus::Pending,
            TransactionStatus::Confirmed { block_height, block_hash } => {
                TransactionStatus::Confirmed {
                    block_height: *block_height,
                    block_hash: *block_hash,
                }
            }
            TransactionStatus::Failed { reason } => TransactionStatus::Failed {
                reason: reason.clone(),
            },
            TransactionStatus::Rejected { reason } => TransactionStatus::Rejected {
                reason: reason.clone(),
            },
        };
        let r = Transaction {
            hash: self.hash,
            tx_type,
            nonce: self.nonce,
            gas_limit: self.gas_limit,
            gas_price: self.gas_price,
            timestamp: self.timestamp,
            signature: copy_bytes(&self.signature),
            status,
        };
        assert(r@.kind =~= self@.kind);
        assert(r@.status =~= self@.status);
        assert(r@ =~= self@);
        r
    }
}

} // verus!
