//! The read-only side of the token application: the history of transfers.
//!
//! Accounts are held in canonical writing, amounts in the smallest unit of
//! the token.

use vstd::prelude::*;
use crate::ranking::{is_ranking_of, sort_by_rank, Ranked};
use crate::store::Table;

verus! {

/// One transfer of tokens.
#[derive(Debug, PartialEq, Eq)]
pub struct TransactionView {
    pub tx_id: String,
    pub from: String,
    pub to: String,
    /// In the smallest unit of the token.
    pub amount: u128,
    /// In microseconds.
    pub timestamp: u64,
    pub tx_type: String,
}

/// Abstract value of a [`TransactionView`].
pub struct TransferRecord {
    pub tx_id: Seq<char>,
    pub from: Seq<char>,
    pub to: Seq<char>,
    pub amount: u128,
    pub timestamp: u64,
    pub tx_type: Seq<char>,
}

impl DeepView for TransactionView {
    type V = TransferRecord;

    open spec fn deep_view(&self) -> TransferRecord {
        TransferRecord {
            tx_id: self.tx_id@,
            from: self.from@,
            to: self.to@,
            amount: self.amount,
            timestamp: self.timestamp,
            tx_type: self.tx_type@,
        }
    }
}

impl Clone for TransactionView {
    fn clone(&self) -> (copy: Self)
        ensures
            copy.deep_view() == self.deep_view(),
    {
        TransactionView {
            tx_id: self.tx_id.clone(),
            from: self.from.clone(),
            to: self.to.clone(),
            amount: self.amount,
            timestamp: self.timestamp,
            tx_type: self.tx_type.clone(),
        }
    }
}

impl Ranked for TransactionView {
    open spec fn rank_of(row: TransferRecord) -> u64 {
        row.timestamp
    }

    fn rank(&self) -> (rank: u64) {
        self.timestamp
    }
}

/// The read-only side of the token application.
pub struct FungibleTokenService {
    /// The transfers, by id.
    pub transactions: Table<String, TransactionView>,
}

/// The transfers that `order` lists, in that order.
pub open spec fn transfers_listing(
    order: Seq<Seq<char>>,
    transfers: Map<Seq<char>, TransferRecord>,
) -> Seq<TransferRecord> {
    Seq::new(order.len(), |i: int| transfers[order[i]])
}

/// The transfers that `order` lists from or to `user`, in that order.
pub open spec fn transfers_of(
    order: Seq<Seq<char>>,
    transfers: Map<Seq<char>, TransferRecord>,
    user: Seq<char>,
) -> Seq<TransferRecord>
    decreases order.len(),
{
    if order.len() == 0 {
        Seq::empty()
    } else {
        let before = transfers_of(order.drop_last(), transfers, user);
        let transfer = transfers[order.last()];
        if transfer.from == user || transfer.to == user {
            before.push(transfer)
        } else {
            before
        }
    }
}

impl FungibleTokenService {
    /// All transfers, latest first.
    pub fn transactions(&self) -> (transfers: Vec<TransactionView>)
        ensures
            is_ranking_of::<TransactionView>(
                transfers.deep_view(),
                transfers_listing(self.transactions.keys(), self.transactions@),
            ),
    {
        let mut txs: Vec<TransactionView> = Vec::new();
        let count = self.transactions.len();
        let ghost listing = transfers_listing(self.transactions.keys(), self.transactions@);
        let mut i: usize = 0;
        while i < count
            invariant
                i <= count,
                count == self.transactions.keys().len(),
                listing == transfers_listing(self.transactions.keys(), self.transactions@),
                txs.len() == i,
                forall|j: int| 0 <= j < i ==> (#[trigger] txs[j]).deep_view() == listing[j],
            decreases count - i,
        {
            txs.push(self.transactions.value_at(i).clone());
            i += 1;
        }
        assert(txs.deep_view() =~= listing);
        sort_by_rank(txs)
    }

    /// The transfers from or to `user`, latest first.
    pub fn user_transactions(&self, user: &String) -> (transfers: Vec<TransactionView>)
        ensures
            is_ranking_of::<TransactionView>(
                transfers.deep_view(),
                transfers_of(self.transactions.keys(), self.transactions@, user@),
            ),
    {
        let mut user_txs: Vec<TransactionView> = Vec::new();
        let count = self.transactions.len();
        let ghost order = self.transactions.keys();
        let mut i: usize = 0;
        proof {
            assert(order.take(0) =~= Seq::<Seq<char>>::empty());
            assert(user_txs.deep_view() =~= Seq::<TransferRecord>::empty());
        }
        while i < count
            invariant
                i <= count,
                count == order.len(),
                order == self.transactions.keys(),
                user_txs.deep_view() == transfers_of(order.take(i as int), self.transactions@, user@),
            decreases count - i,
        {
            let tx = self.transactions.value_at(i);
            let ghost so_far = user_txs.deep_view();
            proof {
                assert(order.take(i as int + 1).drop_last() =~= order.take(i as int));
                assert(order.take(i as int + 1).last() == order[i as int]);
            }
            if tx.from == *user || tx.to == *user {
                user_txs.push(tx.clone());
                assert(user_txs.deep_view() =~= so_far.push(self.transactions@[order[i as int]]));
            }
            i += 1;
        }
        proof {
            assert(order.take(i as int) =~= order);
        }
        sort_by_rank(user_txs)
    }
}

} // verus!
