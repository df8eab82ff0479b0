//! The tournament application: match registry, bet ledger, settlement,
//! airdrop claims and season roll-over, on the chain that owns the pools and
//! on the user chains that forward to it.

use vstd::prelude::*;

pub mod airdrop;
pub mod contract;
pub mod dispatch;
pub mod laws;
pub mod ledger;
pub mod limits;
pub mod pool;
pub mod registry;
pub mod season;
pub mod service;
pub mod settlement;
pub mod state;

verus! {

/// Parameters the application is deployed with.
#[derive(Debug, PartialEq, Eq)]
pub struct Parameters {
    /// The application that moves tokens.
    pub fungible_app_id: String,
    /// The account that may change airdrop settings and process claims.
    pub tournament_owner: String,
    /// The chain that owns the pools.
    pub publisher_chain_id: String,
}

} // verus!
