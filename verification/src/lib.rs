//! Pari-mutuel tournament betting for a game that runs on many chains.
//!
//! Users on their own chains place wagers on the matches of a tournament.
//! The stakes on a match form one pool on the chain that owns the
//! tournament; once the match is settled, the pool is split among the wagers
//! on the winner in proportion to their stakes. Seasons follow one another,
//! and each leaves its leaderboard and its betting counters in an archive.
//!
//! The library decides; it does no input or output. Every application is a
//! value that holds its state in memory and the facts of the execution it
//! runs in: chain, time, signer. A handler changes the state and returns the
//! outside work that follows from it, token transfers, calls and messages,
//! for the host to perform.
//!
//! - [`tournament`]: match registry, bet ledger, odds, settlement, airdrop
//!   claims, seasons, and what holds of them.
//! - [`userxfighter`]: the user's side of a wager and the user's history.
//! - [`leaderboard`]: win and loss counters, over all time and per season.
//! - [`friendxfighter`]: friends between chains.
//! - [`fungible`], [`xfighter`]: listings of transfers and match results.
//! - [`odds`], [`ranking`], [`store`], [`text`], [`keys`]: the arithmetic of
//!   odds, ordering by rank, the key-value table behind every collection,
//!   the writing of identifiers, and the keys of the archives.

pub mod friendxfighter;
pub mod fungible;
pub mod keys;
pub mod leaderboard;
pub mod odds;
pub mod ranking;
pub mod store;
pub mod text;
pub mod tournament;
pub mod tournament_shared;
pub mod userxfighter;
pub mod xfighter;
