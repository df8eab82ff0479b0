//! Tests of the limits of the machine, for callers that cannot reason about
//! them: each returns whether the handler it guards may be called.

use vstd::prelude::*;
use crate::odds::checked_odds;
use crate::text::{account_owner, text_is_empty};
use crate::tournament::contract::TournamentContract;
use crate::tournament::ledger::{accepts_wagers, wager_fits, wager_in_limits};
use crate::tournament::settlement::{settlement_in_limits, settles};
use crate::tournament::dispatch::{can_check_owner, message_in_limits, operation_in_limits};
use crate::tournament::pool::{payout_total, pool_fits, stake_on_player};
use crate::tournament::registry::MICROS_PER_MINUTE;
use crate::tournament::state::{BetEntryView, MatchBetStatus, MatchMetadata};
use crate::tournament_shared::TournamentOperation;

verus! {

/// Whether the totals and odds of a match still fit their fields once
/// `amount` more is wagered on `player`.
pub fn wager_fits_match(metadata: &MatchMetadata, player: &String, amount: u64) -> (fits: bool)
    ensures
        fits == wager_fits(metadata@, player@, amount),
{
    let on_first = *player == metadata.player1;
    let on_second = !on_first && *player == metadata.player2;
    let a: u128 = if on_first {
        metadata.total_bets_a as u128 + amount as u128
    } else {
        metadata.total_bets_a as u128
    };
    let b: u128 = if on_second {
        metadata.total_bets_b as u128 + amount as u128
    } else {
        metadata.total_bets_b as u128
    };
    if a + b > u64::MAX as u128 {
        return false;
    }
    let pool = (a + b) as u64;
    checked_odds(pool, a as u64).is_some() && checked_odds(pool, b as u64).is_some()
}

impl TournamentContract {
    /// Whether a wager on the match is accepted now.
    pub fn accepts_wagers_on(&self, match_id: &String) -> (accepted: bool)
        ensures
            accepted == accepts_wagers(self.state@, match_id@, self.runtime.system_time_micros),
    {
        match self.state.matches.get(match_id) {
            Some(metadata) => metadata.bet_status == MatchBetStatus::Open
                && self.runtime.system_time_micros < metadata.betting_deadline_unix,
            None => false,
        }
    }

    /// Whether [`store_bet`](TournamentContract::store_bet) may be called
    /// with this wager.
    pub fn wager_within_limits(&self, match_id: &String, player: &String, amount: u64) -> (ok: bool)
        ensures
            forall|bet: BetEntryView|
                bet.match_id == match_id@ && bet.predicted == player@ && bet.amount == amount ==> ok
                    == #[trigger] wager_in_limits(self.state@, self.runtime.system_time_micros, bet),
    {
        if !self.accepts_wagers_on(match_id) {
            return true;
        }
        match self.state.matches.get(match_id) {
            Some(metadata) => {
                if *player == metadata.player1 || *player == metadata.player2 {
                    self.state.current_total_bets_placed < u64::MAX && wager_fits_match(
                        metadata,
                        player,
                        amount,
                    )
                } else {
                    true
                }
            },
            None => true,
        }
    }

    /// Whether a call to settle the match for `winner` would settle it.
    pub fn would_settle(&self, match_id: &String, winner: &String) -> (yes: bool)
        ensures
            yes == settles(self.state@, match_id@, winner@),
    {
        match self.state.matches.get(match_id) {
            Some(metadata) => metadata.bet_status != MatchBetStatus::Settled && !text_is_empty(
                match_id,
            ) && !text_is_empty(winner),
            None => false,
        }
    }

    /// Whether [`settle_match_simple`](TournamentContract::settle_match_simple)
    /// may be called with these arguments.
    pub fn settlement_within_limits(&self, match_id: &String, winner: &String) -> (ok: bool)
        ensures
            ok == settlement_in_limits(
                self.state@,
                match_id@,
                winner@,
                self.runtime.authenticated_signer.deep_view(),
            ),
    {
        if !self.would_settle(match_id, winner) {
            return true;
        }
        match self.state.bets.get(match_id) {
            Some(entries) => {
                if !pool_fits(entries) {
                    return false;
                }
                let stake = stake_on_player(entries, winner);
                if stake > 0 && self.runtime.authenticated_signer.is_none() {
                    return false;
                }
                if entries.len() as u64 > u64::MAX - self.state.current_total_bets_settled {
                    return false;
                }
                let paid = payout_total(entries, winner);
                paid <= u64::MAX - self.state.current_total_payouts
            },
            None => true,
        }
    }

    /// Whether the execution can tell the signer from the owner.
    pub fn owner_can_be_checked(&self) -> (ok: bool)
        ensures
            ok == can_check_owner(self.runtime),
    {
        self.runtime.authenticated_signer.is_some() && account_owner(
            &self.runtime.application_parameters.tournament_owner,
        ).is_some()
    }

    /// Whether [`execute_operation`](TournamentContract::execute_operation)
    /// may be called with this operation.
    pub fn operation_within_limits(&self, operation: &TournamentOperation) -> (ok: bool)
        ensures
            ok == operation_in_limits(self.state@, self.runtime, operation.deep_view()),
    {
        match operation {
            TournamentOperation::StartTournamentSeason { .. } => self.state.current_tournament
                < u64::MAX,
            TournamentOperation::RecordMatch { match_id, winner, loser } => {
                if text_is_empty(match_id) || text_is_empty(winner) || text_is_empty(loser) {
                    true
                } else {
                    match self.state.tournament_leaderboard.get(winner) {
                        Some(score) => *score < u64::MAX,
                        None => true,
                    }
                }
            },
            TournamentOperation::SettleMatch { match_id, winner } => self.settlement_within_limits(
                match_id,
                winner,
            ),
            TournamentOperation::SetMatchMetadata { match_id, duration_minutes, status, .. } => {
                if !self.would_set_metadata(match_id, status) {
                    true
                } else {
                    assert(*duration_minutes * MICROS_PER_MINUTE <= u128::MAX) by (nonlinear_arith)
                        requires
                            *duration_minutes <= u64::MAX,
                            MICROS_PER_MINUTE == 60_000_000,
                    ;
                    let span: u128 = (*duration_minutes as u128) * (MICROS_PER_MINUTE as u128);
                    self.runtime.system_time_micros as u128 + span <= u64::MAX as u128
                }
            },
            TournamentOperation::SetAirdropAmount { .. } => self.owner_can_be_checked(),
            TournamentOperation::ProcessPendingClaims { .. } => self.owner_can_be_checked(),
            _ => true,
        }
    }

    /// Whether [`execute_message`](TournamentContract::execute_message) may
    /// be called with this message.
    pub fn message_within_limits(&self, message: &TournamentOperation) -> (ok: bool)
        ensures
            ok == message_in_limits(self.state@, self.runtime, message.deep_view()),
    {
        match message {
            TournamentOperation::PlaceBet { match_id, player, amount, .. } => {
                match self.runtime.message_is_bouncing {
                    Some(true) => true,
                    Some(false) => self.wager_within_limits(match_id, player, *amount),
                    None => false,
                }
            },
            TournamentOperation::Payout { .. } => self.runtime.message_is_bouncing.is_some(),
            TournamentOperation::RequestInitialClaim { .. } => self.runtime.message_is_bouncing.is_some(),
            _ => true,
        }
    }
}

} // verus!
