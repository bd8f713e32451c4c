//! The ledger: transactions, blocks, the canonical byte encoding a block is
//! digested over, and the append-only chain with its pending pool.

use vstd::prelude::*;

use crate::encode::{le8, u64_le8};
use crate::hash::{blake2s, blake2s_of, zero_digest};
use vstd::string::StrSliceExecFns;
use vstd::utf8::encode_utf8;

verus! {

/// An immutable value record: who pays whom how much.
#[derive(Debug)]
pub struct Transaction {
    pub sender: String,
    pub recipient: String,
    pub amount: usize,
}

impl Transaction {
    pub fn new(from: &str, to: &str, amount: usize) -> (r: Transaction)
        ensures
            r.sender@ == from@,
            r.recipient@ == to@,
            r.amount == amount,
    {
        Transaction { sender: from.to_owned(), recipient: to.to_owned(), amount }
    }
}

/// The canonical bytes of one transaction: each string as its UTF-8 bytes
/// prefixed by their eight-byte little-endian count, then the amount as eight
/// little-endian bytes.
pub open spec fn tx_bytes(t: Transaction) -> Seq<u8> {
    le8(encode_utf8(t.sender@).len()) + encode_utf8(t.sender@) + le8(
        encode_utf8(t.recipient@).len(),
    ) + encode_utf8(t.recipient@) + le8(t.amount as nat)
}

/// The canonical bytes of a transaction sequence: each transaction's bytes in
/// order.
pub open spec fn txs_bytes(s: Seq<Transaction>) -> Seq<u8>
    decreases s.len(),
{
    if s.len() == 0 {
        Seq::empty()
    } else {
        txs_bytes(s.drop_last()) + tx_bytes(s.last())
    }
}

/// Encode one transaction canonically.
pub fn encode_transaction(t: &Transaction) -> (r: Vec<u8>)
    ensures
        r@ == tx_bytes(*t),
{
    let mut r: Vec<u8> = Vec::new();
    let mut sender_bytes = t.sender.as_str().as_bytes_vec();
    let mut len_prefix = u64_le8(sender_bytes.len() as u64);
    r.append(&mut len_prefix);
    r.append(&mut sender_bytes);
    let mut recipient_bytes = t.recipient.as_str().as_bytes_vec();
    let mut len_prefix2 = u64_le8(recipient_bytes.len() as u64);
    r.append(&mut len_prefix2);
    r.append(&mut recipient_bytes);
    let mut amount_bytes = u64_le8(t.amount as u64);
    r.append(&mut amount_bytes);
    proof {
        assert(r@ =~= tx_bytes(*t));
    }
    r
}

/// An immutable block: its 1-based position, a timestamp, the transactions it
/// committed, the proof that gated its creation, and its predecessor's digest.
#[derive(Debug)]
pub struct Block {
    pub index: usize,
    pub timestamp: usize,
    pub transactions: Vec<Transaction>,
    pub proof: usize,
    pub previous_hash: crate::hash::Hash,
}

/// The canonical bytes a block is digested over: index, timestamp, the
/// transaction count, each transaction's bytes, the proof, and the previous
/// digest, in that fixed order.
pub open spec fn block_bytes(b: Block) -> Seq<u8> {
    le8(b.index as nat) + le8(b.timestamp as nat) + le8(b.transactions@.len()) + txs_bytes(
        b.transactions@,
    ) + le8(b.proof as nat) + b.previous_hash@
}

/// Encode a block canonically.
pub fn encode_block(b: &Block) -> (r: Vec<u8>)
    requires
        b.previous_hash.wf(),
    ensures
        r@ == block_bytes(*b),
{
    let mut r: Vec<u8> = Vec::new();
    let mut index_bytes = u64_le8(b.index as u64);
    r.append(&mut index_bytes);
    let mut ts_bytes = u64_le8(b.timestamp as u64);
    r.append(&mut ts_bytes);
    let mut count_bytes = u64_le8(b.transactions.len() as u64);
    r.append(&mut count_bytes);
    let mut i: usize = 0;
    while i < b.transactions.len()
        invariant
            i <= b.transactions@.len(),
            r@ == le8(b.index as nat) + le8(b.timestamp as nat) + le8(b.transactions@.len())
                + txs_bytes(b.transactions@.take(i as int)),
        decreases b.transactions@.len() - i,
    {
        let mut t_bytes = encode_transaction(&b.transactions[i]);
        r.append(&mut t_bytes);
        i = i + 1;
        proof {
            assert(b.transactions@.take(i as int).drop_last() =~= b.transactions@.take(
                i as int - 1,
            ));
            assert(b.transactions@.take(i as int).last() == b.transactions@[i as int - 1]);
        }
    }
    proof {
        assert(b.transactions@.take(b.transactions@.len() as int) =~= b.transactions@);
    }
    let mut proof_bytes = u64_le8(b.proof as u64);
    r.append(&mut proof_bytes);
    let mut prev = b.previous_hash.to_bytes();
    r.append(&mut prev);
    proof {
        assert(r@ =~= block_bytes(*b));
    }
    r
}

/// Digesting is deterministic: two blocks that agree on every field — index,
/// timestamp, transaction list, proof and predecessor digest — have the same
/// digest, so repeated digestings of an unchanged block always agree.
pub proof fn lemma_digest_deterministic(a: Block, b: Block)
    requires
        a.index == b.index,
        a.timestamp == b.timestamp,
        a.transactions@ == b.transactions@,
        a.proof == b.proof,
        a.previous_hash@ == b.previous_hash@,
    ensures
        blake2s_of(block_bytes(a)) == blake2s_of(block_bytes(b)),
{
    assert(block_bytes(a) == block_bytes(b));
}

impl Block {
    /// The digest of a block is not stored: it is recomputed from the
    /// canonical encoding of the current field values whenever needed.
    pub fn hash(&self) -> (r: crate::hash::Hash)
        requires
            self.previous_hash.wf(),
        ensures
            r@ == blake2s_of(block_bytes(*self)),
            r.wf(),
    {
        let encoded = encode_block(self);
        let digest = blake2s(&encoded);
        match crate::hash::Hash::from_bytes(digest) {
            Some(h) => h,
            None => vstd::pervasive::unreached(),
        }
    }
}

/// The ledger: the append-only block chain and the pending transaction pool.
#[derive(Debug)]
pub struct Blockchain {
    pub chain: Vec<Block>,
    pub current_transactions: Vec<Transaction>,
}

impl Blockchain {
    /// Every block's `index` is its 1-based position, and every block carries
    /// a well-formed predecessor digest.
    pub open spec fn indexed(self) -> bool {
        forall|i: int|
            0 <= i < self.chain@.len() ==> (#[trigger] self.chain@[i]).index == i + 1
                && self.chain@[i].previous_hash.wf()
    }

    /// A ledger is well formed when the chain is non-empty, opens with the
    /// zero predecessor digest, and is consecutively indexed.
    pub open spec fn wf(self) -> bool {
        &&& self.chain@.len() >= 1
        &&& self.chain@[0].previous_hash@ == zero_digest()
        &&& self.indexed()
    }

    /// A fresh ledger: an empty pool and a single genesis block with index 1,
    /// timestamp 0, no transactions, proof 42 and the zero predecessor digest.
    pub fn new() -> (r: Blockchain)
        ensures
            r.wf(),
            r.chain@.len() == 1,
            r.chain@[0].index == 1,
            r.chain@[0].timestamp == 0,
            r.chain@[0].transactions@.len() == 0,
            r.chain@[0].proof == 42,
            r.chain@[0].previous_hash@ == zero_digest(),
            r.current_transactions@.len() == 0,
    {
        let mut bc = Blockchain { chain: Vec::new(), current_transactions: Vec::new() };
        bc.add_block_with_previous_hash(42, crate::hash::Hash::zeros());
        bc
    }

    /// Flush the pending pool into a new block carrying the given proof and
    /// predecessor digest, and append it to the chain.
    pub fn add_block_with_previous_hash(&mut self, proof: usize, previous_hash: crate::hash::Hash)
        requires
            old(self).indexed(),
            old(self).chain@.len() < usize::MAX,
            previous_hash.wf(),
        ensures
            final(self).indexed(),
            final(self).chain@.len() == old(self).chain@.len() + 1,
            final(self).chain@.drop_last() =~= old(self).chain@,
            ({
                let b = final(self).chain@.last();
                b.index == old(self).chain@.len() + 1 && b.timestamp == 0 && b.transactions@ == old(
                    self,
                ).current_transactions@ && b.proof == proof && b.previous_hash@ == previous_hash@
            }),
            final(self).current_transactions@.len() == 0,
            old(self).wf() ==> final(self).wf(),
            old(self).chain@.len() == 0 && previous_hash@ == zero_digest() ==> final(self).wf(),
    {
        let mut transactions: Vec<Transaction> = Vec::new();
        core::mem::swap(&mut transactions, &mut self.current_transactions);
        let block = Block {
            index: self.chain.len() + 1,
            timestamp: 0,
            transactions,
            proof,
            previous_hash,
        };
        self.chain.push(block);
        proof {
            assert(final(self).chain@.drop_last() =~= old(self).chain@);
        }
    }

    /// Flush the pending pool into a new block whose predecessor digest is
    /// the digest of the current last block.
    pub fn add_block(&mut self, proof: usize)
        requires
            old(self).wf(),
            old(self).chain@.len() < usize::MAX,
        ensures
            final(self).wf(),
            final(self).chain@.len() == old(self).chain@.len() + 1,
            final(self).chain@.drop_last() =~= old(self).chain@,
            ({
                let b = final(self).chain@.last();
                b.index == old(self).chain@.len() + 1 && b.timestamp == 0 && b.transactions@ == old(
                    self,
                ).current_transactions@ && b.proof == proof && b.previous_hash@ == blake2s_of(
                    block_bytes(old(self).chain@.last()),
                )
            }),
            final(self).current_transactions@.len() == 0,
    {
        let previous_hash = self.last_block().hash();
        self.add_block_with_previous_hash(proof, previous_hash);
    }

    /// Append a transaction to the pending pool; the returned index is the
    /// block the transaction is expected to land in (advisory only).
    pub fn add_transaction(&mut self, transaction: Transaction) -> (idx: usize)
        requires
            old(self).wf(),
            old(self).chain@.len() < usize::MAX,
        ensures
            final(self).wf(),
            final(self).chain == old(self).chain,
            final(self).current_transactions@ == old(self).current_transactions@.push(transaction),
            idx == old(self).chain@.len() + 1,
            idx == old(self).chain@.last().index + 1,
    {
        self.current_transactions.push(transaction);
        self.last_block().index + 1
    }

    /// The most recently appended block; the chain is never empty.
    pub fn last_block(&self) -> (b: &Block)
        requires
            self.wf(),
        ensures
            *b == self.chain@.last(),
    {
        let i = self.chain.len() - 1;
        &self.chain[i]
    }
}

} // verus!
