//! What the tournament application keeps between operations.

use vstd::prelude::*;
use crate::store::Table;
use crate::tournament_shared::{TournamentMetadata, TournamentMetadataView, clone_optional_text};

verus! {

/// One wager on a match.
#[derive(Debug, PartialEq, Eq)]
pub struct BetEntry {
    pub bet_id: String,
    pub match_id: String,
    pub bettor: String,
    /// The bettor's account, as text.
    pub bettor_public_key: String,
    pub predicted: String,
    pub amount: u64,
    /// The chain the wager came from, where its outcome is reported.
    pub user_chain: String,
}

/// Abstract value of a [`BetEntry`].
pub struct BetEntryView {
    pub bet_id: Seq<char>,
    pub match_id: Seq<char>,
    pub bettor: Seq<char>,
    pub bettor_public_key: Seq<char>,
    pub predicted: Seq<char>,
    pub amount: u64,
    pub user_chain: Seq<char>,
}

impl DeepView for BetEntry {
    type V = BetEntryView;

    open spec fn deep_view(&self) -> BetEntryView {
        BetEntryView {
            bet_id: self.bet_id@,
            match_id: self.match_id@,
            bettor: self.bettor@,
            bettor_public_key: self.bettor_public_key@,
            predicted: self.predicted@,
            amount: self.amount,
            user_chain: self.user_chain@,
        }
    }
}

impl View for BetEntry {
    type V = BetEntryView;

    open spec fn view(&self) -> BetEntryView {
        self.deep_view()
    }
}

impl Clone for BetEntry {
    fn clone(&self) -> (copy: Self)
        ensures
            copy@ == self@,
    {
        BetEntry {
            bet_id: self.bet_id.clone(),
            match_id: self.match_id.clone(),
            bettor: self.bettor.clone(),
            bettor_public_key: self.bettor_public_key.clone(),
            predicted: self.predicted.clone(),
            amount: self.amount,
            user_chain: self.user_chain.clone(),
        }
    }
}

/// Where a match stands in its betting lifecycle.
#[derive(Clone, Copy, Debug, PartialEq, Eq, Structural)]
pub enum MatchBetStatus {
    /// Created, betting not yet open.
    Waiting,
    /// Wagers are accepted.
    Open,
    /// The deadline has passed; no more wagers.
    Closed,
    /// Paid out; terminal.
    Settled,
}

/// Betting metadata of one match.
#[derive(Debug, PartialEq, Eq)]
pub struct MatchMetadata {
    pub match_id: String,
    pub betting_deadline_unix: u64,
    pub betting_start_unix: Option<u64>,
    pub bet_status: MatchBetStatus,
    pub player1: String,
    pub player2: String,
    /// Stake on `player1`.
    pub total_bets_a: u64,
    /// Stake on `player2`.
    pub total_bets_b: u64,
    /// Number of wagers; frozen when the match is settled.
    pub total_bets_count: u64,
    /// Odds of `player1`, scaled by 1000.
    pub odds_a: u64,
    /// Odds of `player2`, scaled by 1000.
    pub odds_b: u64,
}

/// Abstract value of a [`MatchMetadata`].
pub struct MatchMetadataView {
    pub match_id: Seq<char>,
    pub betting_deadline_unix: u64,
    pub betting_start_unix: Option<u64>,
    pub bet_status: MatchBetStatus,
    pub player1: Seq<char>,
    pub player2: Seq<char>,
    pub total_bets_a: u64,
    pub total_bets_b: u64,
    pub total_bets_count: u64,
    pub odds_a: u64,
    pub odds_b: u64,
}

impl DeepView for MatchMetadata {
    type V = MatchMetadataView;

    open spec fn deep_view(&self) -> MatchMetadataView {
        MatchMetadataView {
            match_id: self.match_id@,
            betting_deadline_unix: self.betting_deadline_unix,
            betting_start_unix: self.betting_start_unix,
            bet_status: self.bet_status,
            player1: self.player1@,
            player2: self.player2@,
            total_bets_a: self.total_bets_a,
            total_bets_b: self.total_bets_b,
            total_bets_count: self.total_bets_count,
            odds_a: self.odds_a,
            odds_b: self.odds_b,
        }
    }
}

impl View for MatchMetadata {
    type V = MatchMetadataView;

    open spec fn view(&self) -> MatchMetadataView {
        self.deep_view()
    }
}

impl Clone for MatchMetadata {
    fn clone(&self) -> (copy: Self)
        ensures
            copy@ == self@,
    {
        MatchMetadata {
            match_id: self.match_id.clone(),
            betting_deadline_unix: self.betting_deadline_unix,
            betting_start_unix: self.betting_start_unix,
            bet_status: self.bet_status,
            player1: self.player1.clone(),
            player2: self.player2.clone(),
            total_bets_a: self.total_bets_a,
            total_bets_b: self.total_bets_b,
            total_bets_count: self.total_bets_count,
            odds_a: self.odds_a,
            odds_b: self.odds_b,
        }
    }
}

/// One match of the bracket.
#[derive(Debug, PartialEq, Eq)]
pub struct TournamentMatch {
    pub match_id: String,
    pub player1: String,
    pub player2: String,
    pub winner: Option<String>,
    pub round: String,
    pub match_status: String,
}

/// Abstract value of a [`TournamentMatch`].
pub struct TournamentMatchView {
    pub match_id: Seq<char>,
    pub player1: Seq<char>,
    pub player2: Seq<char>,
    pub winner: Option<Seq<char>>,
    pub round: Seq<char>,
    pub match_status: Seq<char>,
}

impl DeepView for TournamentMatch {
    type V = TournamentMatchView;

    open spec fn deep_view(&self) -> TournamentMatchView {
        TournamentMatchView {
            match_id: self.match_id@,
            player1: self.player1@,
            player2: self.player2@,
            winner: self.winner.deep_view(),
            round: self.round@,
            match_status: self.match_status@,
        }
    }
}

impl View for TournamentMatch {
    type V = TournamentMatchView;

    open spec fn view(&self) -> TournamentMatchView {
        self.deep_view()
    }
}

impl Clone for TournamentMatch {
    fn clone(&self) -> (copy: Self)
        ensures
            copy@ == self@,
    {
        TournamentMatch {
            match_id: self.match_id.clone(),
            player1: self.player1.clone(),
            player2: self.player2.clone(),
            winner: clone_optional_text(&self.winner),
            round: self.round.clone(),
            match_status: self.match_status.clone(),
        }
    }
}

/// An airdrop claim that waits to be processed.
#[derive(Debug, PartialEq, Eq)]
pub struct PendingClaim {
    pub user_chain: String,
    pub user_public_key: String,
    pub requested_at: u64,
}

/// Abstract value of a [`PendingClaim`].
pub struct PendingClaimView {
    pub user_chain: Seq<char>,
    pub user_public_key: Seq<char>,
    pub requested_at: u64,
}

impl DeepView for PendingClaim {
    type V = PendingClaimView;

    open spec fn deep_view(&self) -> PendingClaimView {
        PendingClaimView {
            user_chain: self.user_chain@,
            user_public_key: self.user_public_key@,
            requested_at: self.requested_at,
        }
    }
}

impl View for PendingClaim {
    type V = PendingClaimView;

    open spec fn view(&self) -> PendingClaimView {
        self.deep_view()
    }
}

impl Clone for PendingClaim {
    fn clone(&self) -> (copy: Self)
        ensures
            copy@ == self@,
    {
        PendingClaim {
            user_chain: self.user_chain.clone(),
            user_public_key: self.user_public_key.clone(),
            requested_at: self.requested_at,
        }
    }
}

/// The state of the tournament application.
///
/// The archives are keyed by season: a leaderboard row by season number and
/// user name, a betting counter by season number.
pub struct TournamentState {
    pub tournament_name: String,
    pub start_time: u64,
    pub end_time: u64,
    pub participants: Vec<String>,
    /// Winner and loser of each recorded match.
    pub results: Table<String, (String, String)>,
    pub status: String,
    pub current_round: String,
    pub bracket: Table<String, TournamentMatch>,
    /// Number of the current season.
    pub current_tournament: u64,
    /// Highest scorer of the current season, empty while there is none.
    pub current_champion: String,
    /// Second-highest scorer of the current season, empty while there is none.
    pub current_runner_up: String,
    pub tournament_metadata: Table<u64, TournamentMetadata>,
    /// Wins per user in the current season.
    pub tournament_leaderboard: Table<String, u64>,
    pub past_tournament_leaderboards: Table<(u64, String), u64>,
    /// The wagers of each match that are not settled yet, oldest first.
    pub bets: Table<String, Vec<BetEntry>>,
    pub matches: Table<String, MatchMetadata>,
    pub bet_counter: u64,
    /// The user application registered on each chain.
    pub user_xfighter_app_ids: Table<String, String>,
    pub current_total_bets_placed: u64,
    pub current_total_bets_settled: u64,
    pub current_total_payouts: u64,
    pub past_tournament_bets_placed: Table<u64, u64>,
    pub past_tournament_bets_settled: Table<u64, u64>,
    pub past_tournament_payouts: Table<u64, u64>,
    /// Tokens handed to each new user.
    pub airdrop_amount: u64,
    /// Users that have received the airdrop, as `chain:account`.
    pub airdrop_recipients: Table<String, ()>,
    /// Claims that wait to be processed, under `chain:account`.
    pub pending_claims: Table<String, PendingClaim>,
}

/// Abstract value of a [`TournamentState`].
pub struct TournamentStateView {
    pub tournament_name: Seq<char>,
    pub start_time: u64,
    pub end_time: u64,
    pub participants: Seq<Seq<char>>,
    pub results: Map<Seq<char>, (Seq<char>, Seq<char>)>,
    pub status: Seq<char>,
    pub current_round: Seq<char>,
    pub bracket: Map<Seq<char>, TournamentMatchView>,
    pub current_tournament: u64,
    pub current_champion: Seq<char>,
    pub current_runner_up: Seq<char>,
    pub tournament_metadata: Map<u64, TournamentMetadataView>,
    pub tournament_leaderboard: Map<Seq<char>, u64>,
    pub past_tournament_leaderboards: Map<(u64, Seq<char>), u64>,
    pub bets: Map<Seq<char>, Seq<BetEntryView>>,
    pub matches: Map<Seq<char>, MatchMetadataView>,
    pub bet_counter: u64,
    pub user_xfighter_app_ids: Map<Seq<char>, Seq<char>>,
    pub current_total_bets_placed: u64,
    pub current_total_bets_settled: u64,
    pub current_total_payouts: u64,
    pub past_tournament_bets_placed: Map<u64, u64>,
    pub past_tournament_bets_settled: Map<u64, u64>,
    pub past_tournament_payouts: Map<u64, u64>,
    pub airdrop_amount: u64,
    pub airdrop_recipients: Set<Seq<char>>,
    pub pending_claims: Map<Seq<char>, PendingClaimView>,
}

impl View for TournamentState {
    type V = TournamentStateView;

    open spec fn view(&self) -> TournamentStateView {
        TournamentStateView {
            tournament_name: self.tournament_name@,
            start_time: self.start_time,
            end_time: self.end_time,
            participants: self.participants.deep_view(),
            results: self.results@,
            status: self.status@,
            current_round: self.current_round@,
            bracket: self.bracket@,
            current_tournament: self.current_tournament,
            current_champion: self.current_champion@,
            current_runner_up: self.current_runner_up@,
            tournament_metadata: self.tournament_metadata@,
            tournament_leaderboard: self.tournament_leaderboard@,
            past_tournament_leaderboards: self.past_tournament_leaderboards@,
            bets: self.bets@,
            matches: self.matches@,
            bet_counter: self.bet_counter,
            user_xfighter_app_ids: self.user_xfighter_app_ids@,
            current_total_bets_placed: self.current_total_bets_placed,
            current_total_bets_settled: self.current_total_bets_settled,
            current_total_payouts: self.current_total_payouts,
            past_tournament_bets_placed: self.past_tournament_bets_placed@,
            past_tournament_bets_settled: self.past_tournament_bets_settled@,
            past_tournament_payouts: self.past_tournament_payouts@,
            airdrop_amount: self.airdrop_amount,
            airdrop_recipients: self.airdrop_recipients@.dom(),
            pending_claims: self.pending_claims@,
        }
    }
}

impl TournamentState {
    /// The state of an application that has done nothing yet: every
    /// collection empty, every counter zero, every text empty.
    pub fn new() -> (state: Self)
        ensures
            state@ == Self::empty_view(),
    {
        let state = TournamentState {
            tournament_name: String::new(),
            start_time: 0,
            end_time: 0,
            participants: Vec::new(),
            results: Table::new(),
            status: String::new(),
            current_round: String::new(),
            bracket: Table::new(),
            current_tournament: 0,
            current_champion: String::new(),
            current_runner_up: String::new(),
            tournament_metadata: Table::new(),
            tournament_leaderboard: Table::new(),
            past_tournament_leaderboards: Table::new(),
            bets: Table::new(),
            matches: Table::new(),
            bet_counter: 0,
            user_xfighter_app_ids: Table::new(),
            current_total_bets_placed: 0,
            current_total_bets_settled: 0,
            current_total_payouts: 0,
            past_tournament_bets_placed: Table::new(),
            past_tournament_bets_settled: Table::new(),
            past_tournament_payouts: Table::new(),
            airdrop_amount: 0,
            airdrop_recipients: Table::new(),
            pending_claims: Table::new(),
        };
        proof {
            assert(state.participants.deep_view() =~= Seq::<Seq<char>>::empty());
            assert(state.airdrop_recipients@.dom() =~= Set::<Seq<char>>::empty());
        }
        state
    }

    /// The abstract value of a fresh state.
    pub open spec fn empty_view() -> TournamentStateView {
        TournamentStateView {
            tournament_name: Seq::empty(),
            start_time: 0,
            end_time: 0,
            participants: Seq::empty(),
            results: Map::empty(),
            status: Seq::empty(),
            current_round: Seq::empty(),
            bracket: Map::empty(),
            current_tournament: 0,
            current_champion: Seq::empty(),
            current_runner_up: Seq::empty(),
            tournament_metadata: Map::empty(),
            tournament_leaderboard: Map::empty(),
            past_tournament_leaderboards: Map::empty(),
            bets: Map::empty(),
            matches: Map::empty(),
            bet_counter: 0,
            user_xfighter_app_ids: Map::empty(),
            current_total_bets_placed: 0,
            current_total_bets_settled: 0,
            current_total_payouts: 0,
            past_tournament_bets_placed: Map::empty(),
            past_tournament_bets_settled: Map::empty(),
            past_tournament_payouts: Map::empty(),
            airdrop_amount: 0,
            airdrop_recipients: Set::empty(),
            pending_claims: Map::empty(),
        }
    }
}

} // verus!
