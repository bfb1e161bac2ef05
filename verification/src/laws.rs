//! The ledger's stated laws, proved once and for all rather than only
//! observed on examples.

use vstd::prelude::*;

use crate::chain::Chain;
use crate::fingerprint::{fingerprint_of, header_fp, transaction_fp};
use crate::merkle::{fp_seq, merkle_fold, merkle_root, padded};
use crate::pow::pow_accepted;
use crate::types::{HeaderModel, TransactionModel};

verus! {

/// Merkle determinism: the root is a function of the ordered transaction
/// list alone — equal lists (element for element) have equal roots.
pub proof fn lemma_merkle_deterministic(ts1: Seq<TransactionModel>, ts2: Seq<TransactionModel>)
    requires
        ts1 =~= ts2,
    ensures
        merkle_root(ts1) == merkle_root(ts2),
{
}

/// Odd padding at length one: the root of a single transaction duplicates its
/// fingerprint and is the fingerprint of that fingerprint concatenated with
/// itself.
pub proof fn lemma_single_transaction_root(t: TransactionModel)
    ensures
        merkle_root(seq![t]) == fingerprint_of(transaction_fp(t) + transaction_fp(t)),
{
    let fps = fp_seq(seq![t]);
    assert(fps =~= seq![transaction_fp(t)]);
    let p = padded(fps);
    assert(p =~= seq![transaction_fp(t), transaction_fp(t)]);
    let f = fingerprint_of(transaction_fp(t) + transaction_fp(t));
    assert(p.subrange(2, 2).push(f) =~= seq![f]);
    assert(merkle_fold(seq![f]) == f);
    assert(merkle_fold(p) == f);
}

/// A difficulty of zero can never be satisfied: the empty leading slice of a
/// fingerprint is not a numeral, so the proof-of-work search has no exit.
pub proof fn lemma_zero_difficulty_never_accepted(h: HeaderModel)
    requires
        h.difficulty == 0,
    ensures
        !pow_accepted(h),
{
    assert(header_fp(h).take(0).len() == 0);
}

/// Chain links: in a well-formed chain, every block after the first names the
/// fingerprint of its predecessor's header, and the first block names the
/// all-zero sentinel.
pub proof fn lemma_chain_linked(c: &Chain, i: int)
    requires
        c.wf(),
        1 <= i < c.chain@.len(),
    ensures
        c.chain.deep_view()[i].header.pre_hash == header_fp(c.chain.deep_view()[i - 1].header),
{
}

/// Counts: in a well-formed chain, every block's transaction count equals the
/// length of its transaction list, and its first transaction pays the miner.
pub proof fn lemma_block_counts(c: &Chain, i: int)
    requires
        c.wf(),
        0 <= i < c.chain@.len(),
    ensures
        c.chain.deep_view()[i].count == c.chain.deep_view()[i].transactions.len(),
        c.chain.deep_view()[i].transactions.len() >= 1,
        c.chain.deep_view()[i].transactions[0].receiver == c.miner_addr@,
{
}

} // verus!
