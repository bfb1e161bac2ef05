//! The merkle root of an ordered transaction list: fingerprints are paired
//! front-to-back — the first two are removed, their hex texts concatenated and
//! fingerprinted, the result appended at the back — until one remains. An odd
//! list first duplicates its last fingerprint. This sequential pairing order
//! is part of the ledger's definition: a balanced tree pairing would give a
//! different root for the same transactions.

use vstd::prelude::*;
use vstd::string::StringExecFns;

use crate::chain::Chain;
use crate::fingerprint::{fingerprint_of, transaction_fp};
use crate::types::{Transaction, TransactionModel};

verus! {

/// The fingerprints of a transaction list, in order.
pub open spec fn fp_seq(ts: Seq<TransactionModel>) -> Seq<Seq<char>> {
    ts.map_values(|t: TransactionModel| transaction_fp(t))
}

/// An odd-length fingerprint list padded by duplicating its last element.
pub open spec fn padded(fps: Seq<Seq<char>>) -> Seq<Seq<char>> {
    if fps.len() % 2 == 1 {
        fps.push(fps.last())
    } else {
        fps
    }
}

/// Front-to-back pairing: fold the first two fingerprints into one, appended
/// at the back, until a single fingerprint remains.
pub open spec fn merkle_fold(fps: Seq<Seq<char>>) -> Seq<char>
    decreases fps.len(),
{
    if fps.len() == 0 {
        Seq::empty()
    } else if fps.len() == 1 {
        fps[0]
    } else {
        merkle_fold(fps.subrange(2, fps.len() as int).push(fingerprint_of(fps[0] + fps[1])))
    }
}

/// The merkle root of an ordered transaction list.
pub open spec fn merkle_root(ts: Seq<TransactionModel>) -> Seq<char> {
    merkle_fold(padded(fp_seq(ts)))
}

impl Chain {
    /// Computes the merkle root over `curr_transaction`, in input order.
    pub fn get_merkle(curr_transaction: Vec<Transaction>) -> (r: String)
        requires
            curr_transaction@.len() >= 1,
        ensures
            r@ == merkle_root(curr_transaction.deep_view()),
    {
        let ghost ts = curr_transaction.deep_view();
        let mut merkle: Vec<String> = Vec::new();
        let mut i: usize = 0;
        while i < curr_transaction.len()
            invariant
                0 <= i <= curr_transaction@.len(),
                ts == curr_transaction.deep_view(),
                merkle.deep_view() == fp_seq(ts.take(i as int)),
            decreases curr_transaction@.len() - i,
        {
            let text = curr_transaction[i].canonical_text();
            let h = Chain::hash(text.as_str());
            merkle.push(h);
            proof {
                assert(ts[i as int] == curr_transaction@[i as int].deep_view());
                assert(h@ == transaction_fp(ts[i as int]));
                assert(fp_seq(ts.take(i as int + 1)) =~= fp_seq(ts.take(i as int)).push(
                    transaction_fp(ts[i as int]),
                ));
                assert(merkle.deep_view() =~= fp_seq(ts.take(i as int)).push(
                    transaction_fp(ts[i as int]),
                ));
            }
            i = i + 1;
        }
        proof {
            assert(ts.take(ts.len() as int) =~= ts);
        }
        if merkle.len() % 2 == 1 {
            let last = merkle[merkle.len() - 1].clone();
            merkle.push(last);
            proof {
                assert(merkle.deep_view() =~= padded(fp_seq(ts)));
            }
        } else {
            proof {
                assert(merkle.deep_view() =~= padded(fp_seq(ts)));
            }
        }
        while merkle.len() > 1
            invariant
                merkle.deep_view().len() >= 1,
                merkle_fold(merkle.deep_view()) == merkle_root(ts),
            decreases merkle@.len(),
        {
            let ghost dv0 = merkle.deep_view();
            let h1 = merkle.remove(0);
            let h2 = merkle.remove(0);
            let combined = h1.concat(h2.as_str());
            let nh = Chain::hash(combined.as_str());
            merkle.push(nh);
            proof {
                assert(merkle.deep_view() =~= dv0.subrange(2, dv0.len() as int).push(
                    fingerprint_of(dv0[0] + dv0[1]),
                ));
                assert(merkle_fold(dv0) == merkle_fold(merkle.deep_view()));
            }
        }
        let ghost dvf = merkle.deep_view();
        let root = merkle.remove(0);
        proof {
            assert(root@ == dvf[0]);
            assert(merkle_fold(dvf) == dvf[0]);
        }
        root
    }
}

} // verus!
