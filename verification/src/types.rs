//! The ledger's data model — transactions, block headers, blocks — together
//! with the mathematical model of each type and its canonical text, the
//! fixed-order record that fingerprints are computed over.

use vstd::prelude::*;
use vstd::string::StringExecFns;

use crate::text::{dec_chars, int_chars, push_dec_i64, push_dec_u64};

verus! {

/// A transfer of some amount from a sender to a receiver. Immutable once
/// created; no balances or signatures are checked.
#[derive(Debug)]
pub struct Transaction {
    pub sender: String,
    pub receiver: String,
    pub amount: i64,
}

/// The mathematical model of a transaction.
pub ghost struct TransactionModel {
    pub sender: Seq<char>,
    pub receiver: Seq<char>,
    pub amount: int,
}

impl View for Transaction {
    type V = TransactionModel;

    open spec fn view(&self) -> TransactionModel {
        TransactionModel { sender: self.sender@, receiver: self.receiver@, amount: self.amount as int }
    }
}

impl DeepView for Transaction {
    type V = TransactionModel;

    open spec fn deep_view(&self) -> TransactionModel {
        self.view()
    }
}

impl Clone for Transaction {
    fn clone(&self) -> (r: Self)
        ensures
            r@ == self@,
    {
        Transaction {
            sender: self.sender.clone(),
            receiver: self.receiver.clone(),
            amount: self.amount,
        }
    }
}

/// A block's header: fixed once mining ends; only the nonce moves during the
/// proof-of-work search.
#[derive(Debug)]
pub struct BlockHeader {
    pub timestamp: i32,
    pub nonce: u32,
    pub pre_hash: String,
    pub merkle: String,
    pub difficulty: u32,
}

/// The mathematical model of a block header.
pub ghost struct HeaderModel {
    pub timestamp: int,
    pub nonce: nat,
    pub pre_hash: Seq<char>,
    pub merkle: Seq<char>,
    pub difficulty: nat,
}

impl View for BlockHeader {
    type V = HeaderModel;

    open spec fn view(&self) -> HeaderModel {
        HeaderModel {
            timestamp: self.timestamp as int,
            nonce: self.nonce as nat,
            pre_hash: self.pre_hash@,
            merkle: self.merkle@,
            difficulty: self.difficulty as nat,
        }
    }
}

impl DeepView for BlockHeader {
    type V = HeaderModel;

    open spec fn deep_view(&self) -> HeaderModel {
        self.view()
    }
}

/// A finished block: a mined header over an ordered transaction list.
#[derive(Debug)]
pub struct Block {
    pub header: BlockHeader,
    pub count: u32,
    pub transactions: Vec<Transaction>,
}

/// The mathematical model of a block.
pub ghost struct BlockModel {
    pub header: HeaderModel,
    pub count: nat,
    pub transactions: Seq<TransactionModel>,
}

impl View for Block {
    type V = BlockModel;

    open spec fn view(&self) -> BlockModel {
        BlockModel {
            header: self.header@,
            count: self.count as nat,
            transactions: self.transactions.deep_view(),
        }
    }
}

impl DeepView for Block {
    type V = BlockModel;

    open spec fn deep_view(&self) -> BlockModel {
        self.view()
    }
}

/// The canonical text of a transaction: its fields in fixed order, strings
/// quoted, the amount as a decimal numeral.
pub open spec fn transaction_text(t: TransactionModel) -> Seq<char> {
    "{\"sender\":\""@ + t.sender + "\",\"receiver\":\""@ + t.receiver + "\",\"amount\":"@
        + int_chars(t.amount) + "}"@
}

/// The canonical text of a block header: its fields in fixed order.
pub open spec fn header_text(h: HeaderModel) -> Seq<char> {
    "{\"timestamp\":"@ + int_chars(h.timestamp) + ",\"nonce\":"@ + dec_chars(h.nonce)
        + ",\"pre_hash\":\""@ + h.pre_hash + "\",\"merkle\":\""@ + h.merkle + "\",\"difficulty\":"@
        + dec_chars(h.difficulty) + "}"@
}

impl Transaction {
    /// Renders the canonical text that this transaction is fingerprinted over.
    pub fn canonical_text(&self) -> (r: String)
        ensures
            r@ == transaction_text(self@),
    {
        let mut s = "{\"sender\":\"".to_owned();
        s.append(self.sender.as_str());
        s.append("\",\"receiver\":\"");
        s.append(self.receiver.as_str());
        s.append("\",\"amount\":");
        push_dec_i64(&mut s, self.amount);
        s.append("}");
        proof {
            assert(s@ =~= transaction_text(self@));
        }
        s
    }
}

impl BlockHeader {
    /// Renders the canonical text that this header is fingerprinted over.
    pub fn canonical_text(&self) -> (r: String)
        ensures
            r@ == header_text(self@),
    {
        let mut s = "{\"timestamp\":".to_owned();
        push_dec_i64(&mut s, self.timestamp as i64);
        s.append(",\"nonce\":");
        push_dec_u64(&mut s, self.nonce as u64);
        s.append(",\"pre_hash\":\"");
        s.append(self.pre_hash.as_str());
        s.append("\",\"merkle\":\"");
        s.append(self.merkle.as_str());
        s.append("\",\"difficulty\":");
        push_dec_u64(&mut s, self.difficulty as u64);
        s.append("}");
        proof {
            assert(s@ =~= header_text(self@));
        }
        s
    }
}

} // verus!
