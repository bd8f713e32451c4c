//! Behavioural tests for the ledger: genesis, indexing, the pending pool,
//! and block digesting, cross-checked against the real hash and hex crates.

use blake2::Digest;
use blockchain::chain::{Block, Blockchain, Transaction};

const ZERO_HEX: &str = "0000000000000000000000000000000000000000000000000000000000000000";

/// The canonical bytes of a block, built by hand, independently of the
/// library's encoder.
fn manual_block_bytes(
    index: u64,
    timestamp: u64,
    txs: &[(&str, &str, u64)],
    proof: u64,
    previous: &[u8],
) -> Vec<u8> {
    let mut out = Vec::new();
    out.extend_from_slice(&index.to_le_bytes());
    out.extend_from_slice(&timestamp.to_le_bytes());
    out.extend_from_slice(&(txs.len() as u64).to_le_bytes());
    for (sender, recipient, amount) in txs {
        out.extend_from_slice(&(sender.len() as u64).to_le_bytes());
        out.extend_from_slice(sender.as_bytes());
        out.extend_from_slice(&(recipient.len() as u64).to_le_bytes());
        out.extend_from_slice(recipient.as_bytes());
        out.extend_from_slice(&amount.to_le_bytes());
    }
    out.extend_from_slice(&proof.to_le_bytes());
    out.extend_from_slice(previous);
    out
}

#[test]
fn genesis_invariants() {
    let bc = Blockchain::new();
    assert_eq!(bc.chain.len(), 1);
    assert_eq!(bc.chain[0].index, 1);
    assert_eq!(bc.chain[0].timestamp, 0);
    assert_eq!(bc.chain[0].transactions.len(), 0);
    assert_eq!(bc.chain[0].proof, 42);
    assert_eq!(bc.chain[0].previous_hash.to_hex(), ZERO_HEX);
    assert_eq!(bc.current_transactions.len(), 0);
}

#[test]
fn indices_are_consecutive() {
    let mut bc = Blockchain::new();
    for proof in [7usize, 9, 11, 13] {
        bc.add_block(proof);
    }
    assert_eq!(bc.chain.len(), 5);
    for (i, block) in bc.chain.iter().enumerate() {
        assert_eq!(block.index, i + 1);
    }
}

#[test]
fn pool_is_flushed_into_the_new_block() {
    let mut bc = Blockchain::new();
    bc.add_transaction(Transaction::new("Alice", "Bob", 10));
    bc.add_transaction(Transaction::new("Charlie", "Bob", 20));
    assert_eq!(bc.current_transactions.len(), 2);
    bc.add_block(5);
    assert_eq!(bc.current_transactions.len(), 0);
    let block = &bc.chain[1];
    assert_eq!(block.transactions.len(), 2);
    assert_eq!(block.transactions[0].sender, "Alice");
    assert_eq!(block.transactions[0].recipient, "Bob");
    assert_eq!(block.transactions[0].amount, 10);
    assert_eq!(block.transactions[1].sender, "Charlie");
    assert_eq!(block.transactions[1].recipient, "Bob");
    assert_eq!(block.transactions[1].amount, 20);
}

#[test]
fn add_transaction_returns_expected_index() {
    let mut bc = Blockchain::new();
    assert_eq!(bc.add_transaction(Transaction::new("Alice", "Bob", 10)), 2);
    assert_eq!(bc.add_transaction(Transaction::new("Charlie", "Bob", 20)), 2);
    bc.add_block(10);
    assert_eq!(bc.add_transaction(Transaction::new("Alice", "Bob", 1)), 3);
}

#[test]
fn chain_links_by_previous_digest() {
    let mut bc = Blockchain::new();
    let genesis_digest = bc.last_block().hash().to_hex();
    bc.add_block(3);
    assert_eq!(bc.chain[1].previous_hash.to_hex(), genesis_digest);
}

fn sample_block() -> Block {
    Block {
        index: 2,
        timestamp: 0,
        transactions: vec![Transaction::new("Alice", "Bob", 10)],
        proof: 7,
        previous_hash: blockchain::hash::Hash::zeros(),
    }
}

#[test]
fn digest_is_deterministic() {
    let a = sample_block();
    let first = a.hash().to_hex();
    let second = a.hash().to_hex();
    assert_eq!(first, second);
    let b = sample_block();
    assert_eq!(b.hash().to_hex(), first);
}

#[test]
fn digest_changes_with_each_field() {
    let base = sample_block().hash().to_hex();
    let mut b = sample_block();
    b.index = 3;
    assert_ne!(b.hash().to_hex(), base);
    let mut b = sample_block();
    b.timestamp = 1;
    assert_ne!(b.hash().to_hex(), base);
    let mut b = sample_block();
    b.proof = 8;
    assert_ne!(b.hash().to_hex(), base);
    let mut b = sample_block();
    b.transactions[0].amount = 11;
    assert_ne!(b.hash().to_hex(), base);
    let mut b = sample_block();
    b.transactions[0].sender = String::from("Mallory");
    assert_ne!(b.hash().to_hex(), base);
    let mut b = sample_block();
    b.transactions.clear();
    assert_ne!(b.hash().to_hex(), base);
    let mut b = sample_block();
    b.previous_hash = sample_block().hash();
    assert_ne!(b.hash().to_hex(), base);
}

#[test]
fn block_digest_matches_manual_blake2s() {
    let block = sample_block();
    let bytes = manual_block_bytes(2, 0, &[("Alice", "Bob", 10)], 7, &[0u8; 32]);
    let expected = data_encoding::HEXLOWER.encode(&blake2::Blake2s256::digest(&bytes));
    assert_eq!(block.hash().to_hex(), expected);
}

#[test]
fn encoders_produce_canonical_bytes() {
    let tx = Transaction::new("Alice", "Bob", 10);
    let mut expected = Vec::new();
    expected.extend_from_slice(&5u64.to_le_bytes());
    expected.extend_from_slice(b"Alice");
    expected.extend_from_slice(&3u64.to_le_bytes());
    expected.extend_from_slice(b"Bob");
    expected.extend_from_slice(&10u64.to_le_bytes());
    assert_eq!(blockchain::chain::encode_transaction(&tx), expected);

    let block = sample_block();
    let manual = manual_block_bytes(2, 0, &[("Alice", "Bob", 10)], 7, &[0u8; 32]);
    assert_eq!(blockchain::chain::encode_block(&block), manual);

    assert_eq!(blockchain::encode::u64_le8(0x0102030405060708), vec![8, 7, 6, 5, 4, 3, 2, 1]);
    assert_eq!(blockchain::encode::u64_dec_bytes(0), b"0".to_vec());
    assert_eq!(blockchain::encode::u64_dec_bytes(90210), b"90210".to_vec());
}

#[test]
fn digest_construction_is_checked() {
    assert!(blockchain::hash::Hash::from_bytes(vec![0u8; 32]).is_some());
    assert!(blockchain::hash::Hash::from_bytes(vec![0u8; 31]).is_none());
    assert!(blockchain::hash::Hash::from_bytes(vec![0u8; 33]).is_none());
    assert!(blockchain::hash::Hash::from_bytes(Vec::new()).is_none());
    let h = blockchain::hash::Hash::from_bytes((0u8..32).collect()).unwrap();
    assert_eq!(h.to_hex(), "000102030405060708090a0b0c0d0e0f101112131415161718191a1b1c1d1e1f");
}

#[test]
fn end_to_end_scenario() {
    let mut bc = Blockchain::new();
    assert_eq!(bc.chain.len(), 1);
    assert_eq!(bc.add_transaction(Transaction::new("Alice", "Bob", 10)), 2);
    assert_eq!(bc.current_transactions.len(), 1);
    assert_eq!(bc.add_transaction(Transaction::new("Charlie", "Bob", 20)), 2);
    assert_eq!(bc.current_transactions.len(), 2);
    bc.add_block(10);
    assert_eq!(bc.chain.len(), 2);
    assert_eq!(bc.chain[1].transactions.len(), 2);
    assert_eq!(bc.chain[1].proof, 10);
    assert_eq!(bc.current_transactions.len(), 0);
    bc.add_block(43);
    assert_eq!(bc.chain.len(), 3);
    assert_eq!(bc.chain[2].transactions.len(), 0);
    assert_eq!(bc.chain[2].proof, 43);
}
