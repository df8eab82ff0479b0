//! Bet ledger and odds engine: accepting a wager, and what it does to the
//! totals and odds of its match.
//!
//! The ledger of a match holds the wagers that were accepted since the match
//! was last settled, oldest first. A wager is accepted only while its match
//! is open, and only on one of the two players of the match. A wager that is
//! not accepted changes nothing.

use vstd::prelude::*;
use crate::odds::{calculate_odds, odds_of};
use crate::tournament::pool::total_pool;
use crate::tournament::contract::TournamentContract;
use crate::tournament::registry::{after_probe, probed};
use crate::tournament::state::{
    BetEntry, BetEntryView, MatchBetStatus, MatchMetadataView, TournamentStateView,
};

verus! {

/// Whether `player` is one of the two players of the match.
pub open spec fn recognizes(meta: MatchMetadataView, player: Seq<char>) -> bool {
    player == meta.player1 || player == meta.player2
}

/// The stake on the first player once `amount` more is wagered on `player`.
pub open spec fn stake_a_with(meta: MatchMetadataView, player: Seq<char>, amount: u64) -> nat {
    if player == meta.player1 {
        (meta.total_bets_a + amount) as nat
    } else {
        meta.total_bets_a as nat
    }
}

/// The stake on the second player once `amount` more is wagered on `player`.
pub open spec fn stake_b_with(meta: MatchMetadataView, player: Seq<char>, amount: u64) -> nat {
    if player != meta.player1 && player == meta.player2 {
        (meta.total_bets_b + amount) as nat
    } else {
        meta.total_bets_b as nat
    }
}

/// Whether the totals and odds of the match still fit their fields once
/// `amount` more is wagered on `player`.
pub open spec fn wager_fits(meta: MatchMetadataView, player: Seq<char>, amount: u64) -> bool {
    let a = stake_a_with(meta, player, amount);
    let b = stake_b_with(meta, player, amount);
    &&& a + b <= u64::MAX
    &&& odds_of(a + b, a) <= u64::MAX
    &&& odds_of(a + b, b) <= u64::MAX
}

/// A match after a wager of `amount` on one of its players: the stake on that
/// player grown, both odds recomputed from the new pool, and the number of
/// wagers taken from the ledger, where there is one.
pub open spec fn with_wager(
    meta: MatchMetadataView,
    player: Seq<char>,
    amount: u64,
    ledger_len: Option<nat>,
) -> MatchMetadataView {
    let a = stake_a_with(meta, player, amount);
    let b = stake_b_with(meta, player, amount);
    MatchMetadataView {
        total_bets_a: a as u64,
        total_bets_b: b as u64,
        total_bets_count: match ledger_len {
            Some(n) => n as u64,
            None => meta.total_bets_count,
        },
        odds_a: odds_of(a + b, a) as u64,
        odds_b: odds_of(a + b, b) as u64,
        ..meta
    }
}

/// The number of wagers in the ledger of a match, if it has a ledger.
pub open spec fn ledger_len(state: TournamentStateView, match_id: Seq<char>) -> Option<nat> {
    if state.bets.contains_key(match_id) {
        Some(state.bets[match_id].len())
    } else {
        None
    }
}

/// The state after the odds of a match were updated for a wager. A wager on
/// a match that is not registered, or on a player that is not one of its two,
/// changes nothing.
pub open spec fn after_odds_update(
    state: TournamentStateView,
    match_id: Seq<char>,
    player: Seq<char>,
    amount: u64,
) -> TournamentStateView {
    if state.matches.contains_key(match_id) && recognizes(state.matches[match_id], player) {
        TournamentStateView {
            matches: state.matches.insert(
                match_id,
                with_wager(state.matches[match_id], player, amount, ledger_len(state, match_id)),
            ),
            ..state
        }
    } else {
        state
    }
}

/// Whether a wager on the match is accepted at `now`: the match is registered
/// and, after the status probe, open.
pub open spec fn accepts_wagers(state: TournamentStateView, match_id: Seq<char>, now: u64) -> bool {
    state.matches.contains_key(match_id) && probed(state.matches[match_id], now).bet_status
        == MatchBetStatus::Open
}

/// The ledger of a match; empty where it has none.
pub open spec fn ledger_of(state: TournamentStateView, match_id: Seq<char>) -> Seq<BetEntryView> {
    if state.bets.contains_key(match_id) {
        state.bets[match_id]
    } else {
        Seq::empty()
    }
}

/// Whether the totals of a match account for its ledger: the match is
/// registered, and the stakes on its two players add up to the sum of the
/// wagers in its ledger.
pub open spec fn pool_is_balanced(state: TournamentStateView, match_id: Seq<char>) -> bool {
    state.matches.contains_key(match_id) && state.matches[match_id].total_bets_a
        + state.matches[match_id].total_bets_b == total_pool(ledger_of(state, match_id))
}

/// Whether a wager is accepted at `now`: its match accepts wagers, and the
/// wager is on one of the two players of the match.
pub open spec fn accepts_wager(state: TournamentStateView, now: u64, bet: BetEntryView) -> bool {
    accepts_wagers(state, bet.match_id, now) && recognizes(
        state.matches[bet.match_id],
        bet.predicted,
    )
}

/// The state after a wager was submitted at `now`. An accepted wager is
/// appended to the ledger of its match, counted for the season, and entered
/// into the totals and odds of the match; any other wager is dropped, and
/// only the status probe takes effect.
pub open spec fn after_wager(
    state: TournamentStateView,
    now: u64,
    bet: BetEntryView,
) -> TournamentStateView {
    if accepts_wager(state, now, bet) {
        let stored = TournamentStateView {
            bets: state.bets.insert(bet.match_id, ledger_of(state, bet.match_id).push(bet)),
            current_total_bets_placed: (state.current_total_bets_placed + 1) as u64,
            ..state
        };
        after_odds_update(stored, bet.match_id, bet.predicted, bet.amount)
    } else {
        after_probe(state, bet.match_id, now)
    }
}

/// Whether the counters touched by a wager have room for it.
pub open spec fn wager_in_limits(state: TournamentStateView, now: u64, bet: BetEntryView) -> bool {
    accepts_wager(state, now, bet) ==> {
        &&& state.current_total_bets_placed < u64::MAX
        &&& wager_fits(state.matches[bet.match_id], bet.predicted, bet.amount)
    }
}

impl TournamentContract {
    /// Implied odds of one side, from the whole pool and the stake on that side.
    pub fn calculate_odds(total_pool: u64, bets_on_player: u64) -> (odds: u64)
        requires
            odds_of(total_pool as nat, bets_on_player as nat) <= u64::MAX,
        ensures
            odds == odds_of(total_pool as nat, bets_on_player as nat),
    {
        calculate_odds(total_pool, bets_on_player)
    }

    /// Enters a wager of `amount` on `player` into the totals and odds of a match.
    pub fn update_odds(&mut self, match_id: &String, player: &String, amount: u64)
        requires
            old(self).state@.matches.contains_key(match_id@) && recognizes(
                old(self).state@.matches[match_id@],
                player@,
            ) ==> wager_fits(old(self).state@.matches[match_id@], player@, amount),
        ensures
            final(self).state@ == after_odds_update(old(self).state@, match_id@, player@, amount),
            final(self).runtime == old(self).runtime,
    {
        let found = match self.state.matches.get(match_id) {
            Some(metadata) => Some(metadata.clone()),
            None => None,
        };
        if let Some(mut metadata) = found {
            let ghost before = metadata@;
            if *player == metadata.player1 {
                metadata.total_bets_a = metadata.total_bets_a + amount;
            } else if *player == metadata.player2 {
                metadata.total_bets_b = metadata.total_bets_b + amount;
            } else {
                return ;
            }
            let total_pool = metadata.total_bets_a + metadata.total_bets_b;
            match self.state.bets.get(match_id) {
                Some(bets) => {
                    metadata.total_bets_count = bets.len() as u64;
                },
                None => {},
            }
            let odds_a = Self::calculate_odds(total_pool, metadata.total_bets_a);
            let odds_b = Self::calculate_odds(total_pool, metadata.total_bets_b);
            metadata.odds_a = odds_a;
            metadata.odds_b = odds_b;
            assert(metadata@ == with_wager(
                before,
                player@,
                amount,
                ledger_len(old(self).state@, match_id@),
            ));
            self.state.matches.insert(match_id.clone(), metadata);
        }
    }

    /// Takes a wager submitted to the pool: appends it to the ledger of its
    /// match if the match is open and the wager is on one of its two
    /// players, and drops it otherwise.
    pub fn store_bet(
        &mut self,
        bet_id: String,
        match_id: String,
        player: String,
        amount: u64,
        bettor: String,
        bettor_public_key: String,
        user_chain: String,
    )
        requires
            wager_in_limits(
                old(self).state@,
                old(self).runtime.system_time_micros,
                BetEntryView {
                    bet_id: bet_id@,
                    match_id: match_id@,
                    bettor: bettor@,
                    bettor_public_key: bettor_public_key@,
                    predicted: player@,
                    amount,
                    user_chain: user_chain@,
                },
            ),
        ensures
            final(self).state@ == after_wager(
                old(self).state@,
                old(self).runtime.system_time_micros,
                BetEntryView {
                    bet_id: bet_id@,
                    match_id: match_id@,
                    bettor: bettor@,
                    bettor_public_key: bettor_public_key@,
                    predicted: player@,
                    amount,
                    user_chain: user_chain@,
                },
            ),
            pool_is_balanced(old(self).state@, match_id@) ==> pool_is_balanced(
                final(self).state@,
                match_id@,
            ),
            final(self).runtime == old(self).runtime,
    {
        let ghost before = self.state@;
        self.update_match_status(&match_id);
        let accepted = match self.state.matches.get(&match_id) {
            Some(metadata) => metadata.bet_status == MatchBetStatus::Open && (player
                == metadata.player1 || player == metadata.player2),
            None => false,
        };
        if !accepted {
            return ;
        }
        assert(self.state@ == before);
        let bet_entry = BetEntry {
            bet_id,
            match_id: match_id.clone(),
            bettor,
            bettor_public_key,
            predicted: player.clone(),
            amount,
            user_chain,
        };
        let ghost bet = bet_entry@;
        let mut bets_for_match: Vec<BetEntry> = match self.state.bets.get(&match_id) {
            Some(entries) => clone_ledger(entries),
            None => Vec::new(),
        };
        assert(bets_for_match.deep_view() =~= ledger_of(before, match_id@));
        bets_for_match.push(bet_entry);
        assert(bets_for_match.deep_view() =~= ledger_of(before, match_id@).push(bet));
        assert(ledger_of(before, match_id@).push(bet).drop_last() =~= ledger_of(before, match_id@));
        self.state.current_total_bets_placed = self.state.current_total_bets_placed + 1;
        self.state.bets.insert(match_id.clone(), bets_for_match);
        self.update_odds(&match_id, &player, amount);
    }
}

/// A copy of a ledger.
pub fn clone_ledger(entries: &Vec<BetEntry>) -> (copy: Vec<BetEntry>)
    ensures
        copy.deep_view() == entries.deep_view(),
{
    let mut copy: Vec<BetEntry> = Vec::new();
    let mut i: usize = 0;
    while i < entries.len()
        invariant
            i <= entries.len(),
            copy.len() == i,
            forall|j: int| 0 <= j < i ==> copy[j]@ == entries[j]@,
        decreases entries.len() - i,
    {
        copy.push(entries[i].clone());
        i += 1;
    }
    assert(copy.deep_view() =~= entries.deep_view());
    copy
}

} // verus!
