//! The proof-of-work puzzle: a brute-force search for the smallest candidate
//! whose digest, combined with the previous proof, meets the difficulty
//! target of two leading hexadecimal zeros (one zero byte), and the mining
//! step that commits the pending pool behind such a proof.

use vstd::prelude::*;

use crate::chain::{block_bytes, Blockchain, Transaction};
use crate::encode::{dec_bytes, u64_dec_bytes};
use crate::hash::{blake2s, blake2s_of, hex_digit, hex_lower_of, lemma_hex_lower_len};

verus! {

/// The bytes a puzzle guess is digested over: the decimal numeral of the
/// previous proof followed by the decimal numeral of the candidate.
pub open spec fn puzzle_bytes(last_proof: nat, candidate: nat) -> Seq<u8> {
    dec_bytes(last_proof) + dec_bytes(candidate)
}

/// A candidate solves the puzzle when the hexadecimal rendering of the
/// guess's digest starts with `"00"`.
pub open spec fn spec_valid_proof(last_proof: nat, candidate: nat) -> bool {
    let h = hex_lower_of(blake2s_of(puzzle_bytes(last_proof, candidate)));
    h.len() >= 2 && h[0] == '0' && h[1] == '0'
}

/// Decide whether `candidate` solves the puzzle for `last_proof`. The first
/// two hexadecimal characters are `'0'` exactly when the digest's first byte
/// is zero, so the check runs on the byte itself.
pub fn valid_proof(last_proof: usize, candidate: usize) -> (r: bool)
    ensures
        r == spec_valid_proof(last_proof as nat, candidate as nat),
{
    let mut guess = u64_dec_bytes(last_proof as u64);
    let mut candidate_bytes = u64_dec_bytes(candidate as u64);
    guess.append(&mut candidate_bytes);
    let digest = blake2s(&guess);
    let r = digest[0] == 0;
    proof {
        assert(guess@ =~= puzzle_bytes(last_proof as nat, candidate as nat));
        let h = blake2s_of(puzzle_bytes(last_proof as nat, candidate as nat));
        lemma_hex_lower_len(h);
        assert(hex_lower_of(h)[0] == hex_digit(h.first() / 16));
        assert(hex_lower_of(h)[1] == hex_digit(h.first() % 16));
        assert(h.first() == digest@[0]);
        assert((hex_digit(digest@[0] / 16) == '0' && hex_digit(digest@[0] % 16) == '0')
            <==> digest@[0] == 0);
    }
    r
}

/// Search candidates 0, 1, 2, ... and return the first that solves the
/// puzzle: the returned proof is valid and no smaller candidate is. The
/// search is exhaustive over the candidate counter's range, so it comes back
/// empty only if no representable candidate solves the puzzle at all (with
/// this difficulty target that is never observed in practice).
pub fn proof_of_work(last_proof: usize) -> (r: Option<usize>)
    ensures
        match r {
            Some(p) => spec_valid_proof(last_proof as nat, p as nat) && forall|q: nat|
                q < p ==> !spec_valid_proof(last_proof as nat, q),
            None => forall|q: nat| q <= usize::MAX ==> !spec_valid_proof(last_proof as nat, q),
        },
{
    let mut candidate: usize = 0;
    loop
        invariant
            forall|q: nat| q < candidate ==> !spec_valid_proof(last_proof as nat, q),
        decreases usize::MAX - candidate,
    {
        if valid_proof(last_proof, candidate) {
            return Some(candidate);
        }
        if candidate == usize::MAX {
            return None;
        }
        candidate = candidate + 1;
    }
}

/// One mining round: solve the puzzle against the last block's proof, award
/// the mining reward of one coin from `"0"` to `"Lemongrab"`, and commit the
/// pool (the reward last) in a new block behind the solved proof. Returns
/// whether a block was mined; when the puzzle has no representable solution
/// the ledger is left untouched.
pub fn mine(bc: &mut Blockchain) -> (mined: bool)
    requires
        old(bc).wf(),
        old(bc).chain@.len() < usize::MAX,
    ensures
        final(bc).wf(),
        mined ==> final(bc).chain@.len() == old(bc).chain@.len() + 1,
        mined ==> final(bc).chain@.drop_last() =~= old(bc).chain@,
        mined ==> ({
            let b = final(bc).chain@.last();
            let lp = old(bc).chain@.last().proof as nat;
            &&& spec_valid_proof(lp, b.proof as nat)
            &&& forall|q: nat| q < b.proof ==> !spec_valid_proof(lp, q)
            &&& b.index == old(bc).chain@.len() + 1
            &&& b.previous_hash@ == blake2s_of(block_bytes(old(bc).chain@.last()))
            &&& b.transactions@.len() == old(bc).current_transactions@.len() + 1
            &&& b.transactions@.drop_last() =~= old(bc).current_transactions@
            &&& b.transactions@.last().sender@ == "0"@
            &&& b.transactions@.last().recipient@ == "Lemongrab"@
            &&& b.transactions@.last().amount == 1
        }),
        mined ==> final(bc).current_transactions@.len() == 0,
        !mined ==> *final(bc) == *old(bc),
        !mined ==> forall|q: nat|
            q <= usize::MAX ==> !spec_valid_proof(old(bc).chain@.last().proof as nat, q),
{
    let last_proof = bc.last_block().proof;
    match proof_of_work(last_proof) {
        Some(solved) => {
            bc.add_transaction(Transaction::new("0", "Lemongrab", 1));
            bc.add_block(solved);
            proof {
                assert(final(bc).chain@.last().transactions@.drop_last() =~= old(
                    bc,
                ).current_transactions@);
            }
            true
        },
        None => false,
    }
}

} // verus!
