//! The application on a user's chain: it takes the user's wagers, pays for
//! them, hands them on to the tournament, and keeps the user's history.

use vstd::prelude::*;

pub mod contract;
pub mod service;
pub mod state;

verus! {

/// What the user application is asked to do.
#[derive(Debug, PartialEq, Eq)]
pub enum Operation {
    PlaceBet { user_chain: String, user_public_key: String, match_id: String, player: String, amount: u64 },
    RecordPayout {
        bet_id: String,
        match_id: String,
        amount: u64,
        user_public_key: String,
        is_win: bool,
        tournament_season: u64,
    },
    RequestInitialClaim { user_chain: String, user_public_key: String },
    SendFriendRequest { to_user_chain: String },
    AcceptFriendRequest { request_id: String },
    RejectFriendRequest { request_id: String },
    RemoveFriend { friend_chain_id: String },
}

/// Abstract value of an [`Operation`].
pub enum OperationView {
    PlaceBet {
        user_chain: Seq<char>,
        user_public_key: Seq<char>,
        match_id: Seq<char>,
        player: Seq<char>,
        amount: u64,
    },
    RecordPayout {
        bet_id: Seq<char>,
        match_id: Seq<char>,
        amount: u64,
        user_public_key: Seq<char>,
        is_win: bool,
        tournament_season: u64,
    },
    RequestInitialClaim { user_chain: Seq<char>, user_public_key: Seq<char> },
    SendFriendRequest { to_user_chain: Seq<char> },
    AcceptFriendRequest { request_id: Seq<char> },
    RejectFriendRequest { request_id: Seq<char> },
    RemoveFriend { friend_chain_id: Seq<char> },
}

impl DeepView for Operation {
    type V = OperationView;

    open spec fn deep_view(&self) -> OperationView {
        match self {
            Operation::PlaceBet { user_chain, user_public_key, match_id, player, amount } => {
                OperationView::PlaceBet {
                    user_chain: user_chain@,
                    user_public_key: user_public_key@,
                    match_id: match_id@,
                    player: player@,
                    amount: *amount,
                }
            },
            Operation::RecordPayout {
                bet_id,
                match_id,
                amount,
                user_public_key,
                is_win,
                tournament_season,
            } => OperationView::RecordPayout {
                bet_id: bet_id@,
                match_id: match_id@,
                amount: *amount,
                user_public_key: user_public_key@,
                is_win: *is_win,
                tournament_season: *tournament_season,
            },
            Operation::RequestInitialClaim { user_chain, user_public_key } => {
                OperationView::RequestInitialClaim {
                    user_chain: user_chain@,
                    user_public_key: user_public_key@,
                }
            },
            Operation::SendFriendRequest { to_user_chain } => {
                OperationView::SendFriendRequest { to_user_chain: to_user_chain@ }
            },
            Operation::AcceptFriendRequest { request_id } => {
                OperationView::AcceptFriendRequest { request_id: request_id@ }
            },
            Operation::RejectFriendRequest { request_id } => {
                OperationView::RejectFriendRequest { request_id: request_id@ }
            },
            Operation::RemoveFriend { friend_chain_id } => {
                OperationView::RemoveFriend { friend_chain_id: friend_chain_id@ }
            },
        }
    }
}

impl View for Operation {
    type V = OperationView;

    open spec fn view(&self) -> OperationView {
        self.deep_view()
    }
}

/// Parameters the application is deployed with.
#[derive(Debug, PartialEq, Eq)]
pub struct Parameters {
    /// The tournament application on the user's own chain.
    pub local_tournament_app_id: String,
    /// The application that moves tokens.
    pub fungible_app_id: String,
    /// The account that collects the stakes.
    pub tournament_owner: String,
    /// The chain that owns the pools.
    pub publisher_chain_id: String,
    /// The application that keeps the user's friends.
    pub friend_app_id: String,
}

} // verus!
