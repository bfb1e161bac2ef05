//! The chain itself: an append-only block sequence, the pool of pending
//! transactions, and the configuration that block generation reads. Every
//! method keeps the chain well formed: counts match, every block starts with
//! the reward transaction, merkle roots cover the block's transactions, each
//! header satisfies its own difficulty, and each block names the fingerprint
//! of its predecessor's header.

use vstd::prelude::*;

use crate::fingerprint::header_fp;
use crate::merkle::merkle_root;
use crate::pow::{no_nonce_from, pow_accepted, with_nonce};
use crate::types::{Block, BlockHeader, HeaderModel, Transaction, TransactionModel};

verus! {

/// The reward credited to the miner by the distinguished first transaction of
/// every generated block, until `update_reward` changes it.
pub const DEFAULT_REWARD: i64 = 100;

/// The append-only ledger: its blocks, its pending transactions, and the
/// difficulty, miner address and reward that the next generation will use.
pub struct Chain {
    pub chain: Vec<Block>,
    pub curr_transaction: Vec<Transaction>,
    pub difficulty: u32,
    pub miner_addr: String,
    pub reward: i64,
}

/// The sentinel a genesis block links to: sixty-four zero characters.
pub open spec fn genesis_pre_hash() -> Seq<char> {
    "0000000000000000000000000000000000000000000000000000000000000000"@
}

/// The reward transaction the next generated block will start with.
pub open spec fn reward_tx(c: Chain) -> TransactionModel {
    TransactionModel { sender: "Root"@, receiver: c.miner_addr@, amount: c.reward as int }
}

/// The transaction list of the next generated block: the reward transaction
/// followed by the pool's contents, in insertion order.
pub open spec fn next_block_txs(c: Chain) -> Seq<TransactionModel> {
    seq![reward_tx(c)] + c.curr_transaction.deep_view()
}

/// What `last_hash` returns: the fingerprint of the newest block's header, or
/// the genesis sentinel when no block exists.
pub open spec fn last_fp(c: Chain) -> Seq<char> {
    if c.chain@.len() == 0 {
        genesis_pre_hash()
    } else {
        header_fp(c.chain.deep_view().last().header)
    }
}

/// The header the next generated block is mined over, given the wall-clock
/// reading `t` and a nonce `n`.
pub open spec fn next_header(c: Chain, t: int, n: nat) -> HeaderModel {
    HeaderModel {
        timestamp: t,
        nonce: n,
        pre_hash: last_fp(c),
        merkle: merkle_root(next_block_txs(c)),
        difficulty: c.difficulty as nat,
    }
}

/// The header a genesis block is mined over, for a chain constructed with the
/// given miner address and difficulty, at wall-clock reading `t` and nonce 0.
pub open spec fn genesis_header(miner: Seq<char>, difficulty: nat, t: int) -> HeaderModel {
    HeaderModel {
        timestamp: t,
        nonce: 0,
        pre_hash: genesis_pre_hash(),
        merkle: merkle_root(
            seq![(TransactionModel { sender: "Root"@, receiver: miner, amount: DEFAULT_REWARD as int })],
        ),
        difficulty: difficulty,
    }
}

/// Relies on std::time::SystemTime::now and duration_since(UNIX_EPOCH):
/// the wall-clock seconds since the epoch, truncated to 32 bits. Nothing is
/// assumed about the reading; it aborts if the clock reads before the epoch.
#[verifier::external_body]
fn now_seconds() -> i32 {
    let since_the_epoch = std::time::SystemTime::now().duration_since(
        std::time::UNIX_EPOCH,
    ).expect("Time went backwards");
    since_the_epoch.as_secs() as i32
}

/// A fresh copy of a transaction list with the same model.
fn clone_transactions(v: &Vec<Transaction>) -> (r: Vec<Transaction>)
    ensures
        r.deep_view() == v.deep_view(),
        r@.len() == v@.len(),
{
    let mut r: Vec<Transaction> = Vec::new();
    let mut i: usize = 0;
    while i < v.len()
        invariant
            0 <= i <= v@.len(),
            r.deep_view() == v.deep_view().take(i as int),
        decreases v@.len() - i,
    {
        let cl = v[i].clone();
        r.push(cl);
        proof {
            assert(v.deep_view().take(i as int + 1) =~= v.deep_view().take(i as int).push(
                v@[i as int]@,
            ));
            assert(r.deep_view() =~= v.deep_view().take(i as int).push(v@[i as int]@));
        }
        i = i + 1;
    }
    proof {
        assert(v.deep_view().take(v@.len() as int) =~= v.deep_view());
    }
    r
}

impl Chain {
    /// The chain's invariant. Every appended block is internally consistent —
    /// its count equals its transaction list's length, its first transaction
    /// is the reward transaction to the miner, its merkle root covers exactly
    /// its transactions, its header satisfies its own difficulty — and every
    /// block after the first names the fingerprint of its predecessor's
    /// header, while the first names the all-zero sentinel.
    pub open spec fn wf(&self) -> bool {
        let blocks = self.chain.deep_view();
        &&& forall|i: int|
            0 <= i < blocks.len() ==> (#[trigger] blocks[i]).count == blocks[i].transactions.len()
        &&& forall|i: int| 0 <= i < blocks.len() ==> (#[trigger] blocks[i]).transactions.len() >= 1
        &&& forall|i: int|
            0 <= i < blocks.len() ==> (#[trigger] blocks[i]).transactions[0].sender == "Root"@
        &&& forall|i: int|
            0 <= i < blocks.len() ==> (#[trigger] blocks[i]).transactions[0].receiver
                == self.miner_addr@
        &&& forall|i: int|
            0 <= i < blocks.len() ==> (#[trigger] blocks[i]).header.merkle == merkle_root(
                blocks[i].transactions,
            )
        &&& forall|i: int| 0 <= i < blocks.len() ==> pow_accepted((#[trigger] blocks[i]).header)
        &&& forall|i: int|
            1 <= i < blocks.len() ==> (#[trigger] blocks[i]).header.pre_hash == header_fp(
                blocks[i - 1].header,
            )
        &&& blocks.len() >= 1 ==> blocks[0].header.pre_hash == genesis_pre_hash()
    }

    /// Builds a chain with the given miner address and difficulty, the default
    /// reward and an empty pool, then immediately generates the genesis block.
    /// The chain stays empty only if no nonce at all seals the genesis header.
    pub fn new(miner_addr: String, difficulty: u32) -> (r: Self)
        requires
            difficulty <= 32,
        ensures
            r.wf(),
            r.difficulty == difficulty,
            r.miner_addr@ == miner_addr@,
            r.reward == DEFAULT_REWARD,
            r.curr_transaction@.len() == 0,
            r.chain@.len() <= 1,
            r.chain@.len() == 1 ==> ({
                let b = r.chain.deep_view()[0];
                &&& b.transactions == seq![
                    (TransactionModel {
                        sender: "Root"@,
                        receiver: miner_addr@,
                        amount: DEFAULT_REWARD as int,
                    }),
                ]
                &&& b.count == 1
                &&& b.header == with_nonce(
                    genesis_header(miner_addr@, difficulty as nat, b.header.timestamp),
                    b.header.nonce,
                )
                &&& pow_accepted(b.header)
            }),
            r.chain@.len() == 0 ==> (exists|t: int|
                no_nonce_from(genesis_header(miner_addr@, difficulty as nat, t), 0)),
    {
        let ghost miner_view = miner_addr@;
        let mut chain = Chain {
            chain: Vec::new(),
            curr_transaction: Vec::new(),
            difficulty,
            miner_addr,
            reward: DEFAULT_REWARD,
        };
        let ghost c0 = chain;
        chain.generate_new_block();
        proof {
            assert(next_block_txs(c0) =~= seq![reward_tx(c0)]);
            if chain.chain@.len() == 1 {
                let b = chain.chain.deep_view()[0];
                assert(b.header == with_nonce(
                    genesis_header(miner_view, difficulty as nat, b.header.timestamp),
                    b.header.nonce,
                ));
            } else {
                let t = choose|t: int| no_nonce_from(next_header(c0, t, 0), 0);
                assert(no_nonce_from(genesis_header(miner_view, difficulty as nat, t), 0));
            }
        }
        chain
    }

    /// Builds the next block — reward transaction first, then the pool's
    /// contents in insertion order — computes its merkle root, mines its
    /// header, and appends it. On success the pool is drained and the result
    /// is true. If the nonce space is exhausted (where the search would
    /// otherwise never return) the chain is left untouched and the result is
    /// false.
    pub fn generate_new_block(&mut self) -> (r: bool)
        requires
            old(self).wf(),
            old(self).difficulty <= 32,
            old(self).curr_transaction@.len() + 1 <= u32::MAX,
        ensures
            final(self).wf(),
            final(self).difficulty == old(self).difficulty,
            final(self).reward == old(self).reward,
            final(self).miner_addr == old(self).miner_addr,
            r ==> final(self).curr_transaction@.len() == 0,
            r ==> final(self).chain@.len() == old(self).chain@.len() + 1,
            r ==> final(self).chain.deep_view().drop_last() == old(self).chain.deep_view(),
            r ==> ({
                let b = final(self).chain.deep_view().last();
                &&& b.transactions == next_block_txs(*old(self))
                &&& b.count == b.transactions.len()
                &&& b.header == next_header(*old(self), b.header.timestamp, b.header.nonce)
                &&& pow_accepted(b.header)
            }),
            !r ==> *final(self) == *old(self),
            !r ==> (exists|t: int| no_nonce_from(next_header(*old(self), t, 0), 0)),
    {
        let timestamp = now_seconds();
        let pre_hash = self.last_hash();
        let header = BlockHeader {
            timestamp,
            nonce: 0,
            pre_hash,
            merkle: String::new(),
            difficulty: self.difficulty,
        };
        let reward_trans = Transaction {
            sender: "Root".to_owned(),
            receiver: self.miner_addr.clone(),
            amount: self.reward,
        };
        let mut block = Block { header, count: 0, transactions: Vec::new() };
        block.transactions.push(reward_trans);
        let mut pool = clone_transactions(&self.curr_transaction);
        block.transactions.append(&mut pool);
        proof {
            assert(block.transactions.deep_view() =~= next_block_txs(*old(self)));
        }
        block.count = block.transactions.len() as u32;
        block.header.merkle = Chain::get_merkle(clone_transactions(&block.transactions));
        let ok = Chain::proof_of_work(&mut block.header);
        proof {
            assert(block.header@ == with_nonce(
                next_header(*old(self), timestamp as int, 0),
                block.header.nonce as nat,
            ));
        }
        if ok {
            let ghost bm = block@;
            let ghost old_blocks = old(self).chain.deep_view();
            self.curr_transaction.clear();
            self.chain.push(block);
            proof {
                let blocks = self.chain.deep_view();
                assert(blocks =~= old_blocks.push(bm));
                assert(blocks.drop_last() =~= old_blocks);
                assert(blocks.last() == bm);
                assert forall|i: int| 0 <= i < blocks.len() implies {
                    &&& (#[trigger] blocks[i]).count == blocks[i].transactions.len()
                    &&& blocks[i].transactions.len() >= 1
                    &&& blocks[i].transactions[0].sender == "Root"@
                    &&& blocks[i].transactions[0].receiver == self.miner_addr@
                    &&& blocks[i].header.merkle == merkle_root(blocks[i].transactions)
                    &&& pow_accepted(blocks[i].header)
                } by {
                    if i < old_blocks.len() {
                        assert(blocks[i] == old_blocks[i]);
                    } else {
                        assert(blocks[i] == bm);
                    }
                }
                assert forall|i: int| 1 <= i < blocks.len() implies (#[trigger] blocks[i]).header.pre_hash
                    == header_fp(blocks[i - 1].header) by {
                    if i < old_blocks.len() {
                        assert(blocks[i] == old_blocks[i]);
                    } else {
                        assert(blocks[i] == bm);
                        assert(blocks[i - 1] == old_blocks[i - 1]);
                    }
                }
            }
            true
        } else {
            proof {
                assert(no_nonce_from(next_header(*old(self), timestamp as int, 0), 0));
            }
            false
        }
    }

    /// Queues a transaction for the next generated block. No validation is
    /// performed; the result is always true.
    pub fn new_transaction(&mut self, sender: String, receiver: String, amount: i64) -> (r: bool)
        ensures
            r,
            final(self).curr_transaction.deep_view() == old(self).curr_transaction.deep_view().push(
                (TransactionModel { sender: sender@, receiver: receiver@, amount: amount as int }),
            ),
            final(self).curr_transaction@.len() == old(self).curr_transaction@.len() + 1,
            final(self).chain == old(self).chain,
            final(self).difficulty == old(self).difficulty,
            final(self).miner_addr == old(self).miner_addr,
            final(self).reward == old(self).reward,
            old(self).wf() ==> final(self).wf(),
    {
        self.curr_transaction.push(Transaction { sender, receiver, amount });
        proof {
            assert(self.curr_transaction.deep_view() =~= old(self).curr_transaction.deep_view().push(
                (TransactionModel { sender: sender@, receiver: receiver@, amount: amount as int }),
            ));
        }
        true
    }

    /// The fingerprint of the newest block's header; the all-zero sentinel on
    /// an empty chain (unreachable through `new`, which mines a genesis block).
    pub fn last_hash(&self) -> (r: String)
        ensures
            r@ == last_fp(*self),
    {
        if self.chain.len() == 0 {
            "0000000000000000000000000000000000000000000000000000000000000000".to_owned()
        } else {
            let idx = self.chain.len() - 1;
            let text = self.chain[idx].header.canonical_text();
            let r = Chain::hash(text.as_str());
            proof {
                assert(self.chain.deep_view().last() == self.chain@[idx as int].deep_view());
            }
            r
        }
    }

    /// Overwrites the difficulty; takes effect at the next generation.
    pub fn update_difficulty(&mut self, new_difficulty: u32) -> (r: bool)
        ensures
            r,
            final(self).difficulty == new_difficulty,
            final(self).chain == old(self).chain,
            final(self).curr_transaction == old(self).curr_transaction,
            final(self).miner_addr == old(self).miner_addr,
            final(self).reward == old(self).reward,
            old(self).wf() ==> final(self).wf(),
    {
        self.difficulty = new_difficulty;
        true
    }

    /// Overwrites the reward; takes effect at the next generation.
    pub fn update_reward(&mut self, new_reward: i64) -> (r: bool)
        ensures
            r,
            final(self).reward == new_reward,
            final(self).chain == old(self).chain,
            final(self).curr_transaction == old(self).curr_transaction,
            final(self).miner_addr == old(self).miner_addr,
            final(self).difficulty == old(self).difficulty,
            old(self).wf() ==> final(self).wf(),
    {
        self.reward = new_reward;
        true
    }
}

} // verus!
