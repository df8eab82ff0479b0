//! What the user application keeps between operations.

use vstd::prelude::*;
use crate::store::Table;
use crate::tournament_shared::clone_optional_text;

verus! {

/// One entry of the user's history: a wager placed or a payout received.
#[derive(Debug, PartialEq, Eq)]
pub struct Transaction {
    pub tx_id: String,
    pub tx_type: String,
    pub amount: u64,
    pub timestamp: u64,
    /// The match the entry belongs to.
    pub related_id: Option<String>,
    pub status: String,
    /// The player the wager was on.
    pub player: Option<String>,
    /// The season in which the wager was settled.
    pub tournament_season: Option<u64>,
}

/// Abstract value of a [`Transaction`].
pub struct TransactionView {
    pub tx_id: Seq<char>,
    pub tx_type: Seq<char>,
    pub amount: u64,
    pub timestamp: u64,
    pub related_id: Option<Seq<char>>,
    pub status: Seq<char>,
    pub player: Option<Seq<char>>,
    pub tournament_season: Option<u64>,
}

impl DeepView for Transaction {
    type V = TransactionView;

    open spec fn deep_view(&self) -> TransactionView {
        TransactionView {
            tx_id: self.tx_id@,
            tx_type: self.tx_type@,
            amount: self.amount,
            timestamp: self.timestamp,
            related_id: self.related_id.deep_view(),
            status: self.status@,
            player: self.player.deep_view(),
            tournament_season: self.tournament_season,
        }
    }
}

impl View for Transaction {
    type V = TransactionView;

    open spec fn view(&self) -> TransactionView {
        self.deep_view()
    }
}

impl Clone for Transaction {
    fn clone(&self) -> (copy: Self)
        ensures
            copy@ == self@,
    {
        Transaction {
            tx_id: self.tx_id.clone(),
            tx_type: self.tx_type.clone(),
            amount: self.amount,
            timestamp: self.timestamp,
            related_id: clone_optional_text(&self.related_id),
            status: self.status.clone(),
            player: clone_optional_text(&self.player),
            tournament_season: self.tournament_season,
        }
    }
}

/// The state of the user application: the history, by entry id.
pub struct UserXfighterState {
    pub transactions: Table<String, Transaction>,
}

impl View for UserXfighterState {
    type V = Map<Seq<char>, TransactionView>;

    open spec fn view(&self) -> Map<Seq<char>, TransactionView> {
        self.transactions@
    }
}

impl UserXfighterState {
    /// An empty history.
    pub fn new() -> (state: Self)
        ensures
            state@ == Map::<Seq<char>, TransactionView>::empty(),
    {
        UserXfighterState { transactions: Table::new() }
    }
}

} // verus!
