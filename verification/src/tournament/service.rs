//! The read-only side of the tournament application: projections of the
//! match registry, the ledgers and the seasons. Nothing here changes state.
//!
//! Lists that are not ordered by a rank come in the order in which the
//! underlying table lists its keys.

use vstd::prelude::*;
use crate::odds::{calculate_odds, checked_odds, odds_of};
use crate::ranking::{is_ranking_of, sort_by_rank, Ranked};
use crate::text::{decimal_digits, decimal_text, join};
use crate::tournament::ledger::clone_ledger;
use crate::tournament::state::{
    BetEntry, BetEntryView, MatchBetStatus, MatchMetadataView, PendingClaimView, TournamentMatch,
    TournamentMatchView, TournamentState, TournamentStateView,
};
use crate::tournament_shared::{
    clone_optional_text,
    LeaderboardEntry,
    LeaderboardEntryView,
    TournamentInfo,
    TournamentInfoView,
    TournamentStatus,
};

verus! {

/// The recorded result of one match.
#[derive(Debug, PartialEq, Eq)]
pub struct MatchResultOutput {
    pub match_id: String,
    pub winner: String,
    pub loser: String,
}

/// Abstract value of a [`MatchResultOutput`].
pub struct MatchResultOutputView {
    pub match_id: Seq<char>,
    pub winner: Seq<char>,
    pub loser: Seq<char>,
}

impl DeepView for MatchResultOutput {
    type V = MatchResultOutputView;

    open spec fn deep_view(&self) -> MatchResultOutputView {
        MatchResultOutputView { match_id: self.match_id@, winner: self.winner@, loser: self.loser@ }
    }
}

/// Everything about the betting on one match, with odds and shares computed
/// from the totals of the moment. Odds are scaled by 1000, shares are in
/// percent.
#[derive(Debug, PartialEq, Eq)]
pub struct MatchMetadataOutput {
    pub match_id: String,
    pub player1: String,
    pub player2: String,
    pub betting_deadline_unix: u64,
    pub betting_start_unix: Option<u64>,
    pub odds_a: u64,
    pub odds_b: u64,
    pub total_bets_a: u64,
    pub total_bets_b: u64,
    pub total_pool: u64,
    pub total_bets_count: u64,
    pub bet_distribution_a: u64,
    pub bet_distribution_b: u64,
    pub bet_status: String,
}

/// Abstract value of a [`MatchMetadataOutput`].
pub struct MatchMetadataOutputView {
    pub match_id: Seq<char>,
    pub player1: Seq<char>,
    pub player2: Seq<char>,
    pub betting_deadline_unix: u64,
    pub betting_start_unix: Option<u64>,
    pub odds_a: u64,
    pub odds_b: u64,
    pub total_bets_a: u64,
    pub total_bets_b: u64,
    pub total_pool: u64,
    pub total_bets_count: u64,
    pub bet_distribution_a: u64,
    pub bet_distribution_b: u64,
    pub bet_status: Seq<char>,
}

impl DeepView for MatchMetadataOutput {
    type V = MatchMetadataOutputView;

    open spec fn deep_view(&self) -> MatchMetadataOutputView {
        MatchMetadataOutputView {
            match_id: self.match_id@,
            player1: self.player1@,
            player2: self.player2@,
            betting_deadline_unix: self.betting_deadline_unix,
            betting_start_unix: self.betting_start_unix,
            odds_a: self.odds_a,
            odds_b: self.odds_b,
            total_bets_a: self.total_bets_a,
            total_bets_b: self.total_bets_b,
            total_pool: self.total_pool,
            total_bets_count: self.total_bets_count,
            bet_distribution_a: self.bet_distribution_a,
            bet_distribution_b: self.bet_distribution_b,
            bet_status: self.bet_status@,
        }
    }
}

/// The betting counters of the current season.
#[derive(Clone, Copy, Debug, PartialEq, Eq, Structural)]
pub struct BettingAnalytics {
    pub current_total_bets_placed: u64,
    pub current_total_bets_settled: u64,
    pub current_total_payouts: u64,
    pub current_tournament: u64,
}

/// The betting counters of a past season.
#[derive(Clone, Copy, Debug, PartialEq, Eq, Structural)]
pub struct PastTournamentAnalytics {
    pub tournament_number: u64,
    pub total_bets_placed: u64,
    pub total_bets_settled: u64,
    pub total_payouts: u64,
}

impl DeepView for PastTournamentAnalytics {
    type V = PastTournamentAnalytics;

    open spec fn deep_view(&self) -> PastTournamentAnalytics {
        *self
    }
}

impl Ranked for PastTournamentAnalytics {
    open spec fn rank_of(row: PastTournamentAnalytics) -> u64 {
        row.tournament_number
    }

    fn rank(&self) -> (rank: u64) {
        self.tournament_number
    }
}

impl Ranked for LeaderboardEntry {
    open spec fn rank_of(row: LeaderboardEntryView) -> u64 {
        row.score
    }

    fn rank(&self) -> (rank: u64) {
        self.score
    }
}

/// The airdrop settings.
#[derive(Clone, Copy, Debug, PartialEq, Eq, Structural)]
pub struct AirdropInfo {
    pub amount: u64,
}

/// A claim that waits to be processed, with the key it is queued under.
#[derive(Debug, PartialEq, Eq)]
pub struct PendingClaimOutput {
    pub user_key: String,
    pub user_chain: String,
    pub user_public_key: String,
    pub requested_at: u64,
}

/// Abstract value of a [`PendingClaimOutput`].
pub struct PendingClaimOutputView {
    pub user_key: Seq<char>,
    pub user_chain: Seq<char>,
    pub user_public_key: Seq<char>,
    pub requested_at: u64,
}

impl DeepView for PendingClaimOutput {
    type V = PendingClaimOutputView;

    open spec fn deep_view(&self) -> PendingClaimOutputView {
        PendingClaimOutputView {
            user_key: self.user_key@,
            user_chain: self.user_chain@,
            user_public_key: self.user_public_key@,
            requested_at: self.requested_at,
        }
    }
}

/// The read-only side of the tournament application.
pub struct TournamentService {
    pub state: TournamentState,
}

/// How a status is written.
pub open spec fn status_text(status: MatchBetStatus) -> Seq<char> {
    match status {
        MatchBetStatus::Waiting => "Waiting"@,
        MatchBetStatus::Open => "Open"@,
        MatchBetStatus::Closed => "Closed"@,
        MatchBetStatus::Settled => "Settled"@,
    }
}

/// The share of the pool that is staked on the first player, in percent,
/// rounded down; half where the pool is empty.
pub open spec fn pool_share(stake: nat, pool: nat) -> nat {
    if pool > 0 {
        (stake * 100) / pool
    } else {
        50
    }
}

/// The number of wagers on a match: the frozen number once the match is
/// settled, else the length of its ledger.
pub open spec fn wager_count(state: TournamentStateView, match_id: Seq<char>) -> u64 {
    let meta = state.matches[match_id];
    if meta.bet_status == MatchBetStatus::Settled {
        meta.total_bets_count
    } else if state.bets.contains_key(match_id) {
        state.bets[match_id].len() as u64
    } else {
        0
    }
}

/// The betting on one match as the query surface reports it.
pub open spec fn match_report(
    state: TournamentStateView,
    match_id: Seq<char>,
) -> MatchMetadataOutputView {
    let meta = state.matches[match_id];
    let pool = (meta.total_bets_a + meta.total_bets_b) as nat;
    let share_a = pool_share(meta.total_bets_a as nat, pool);
    MatchMetadataOutputView {
        match_id: meta.match_id,
        player1: meta.player1,
        player2: meta.player2,
        betting_deadline_unix: meta.betting_deadline_unix,
        betting_start_unix: meta.betting_start_unix,
        odds_a: odds_of(pool, meta.total_bets_a as nat) as u64,
        odds_b: odds_of(pool, meta.total_bets_b as nat) as u64,
        total_bets_a: meta.total_bets_a,
        total_bets_b: meta.total_bets_b,
        total_pool: pool as u64,
        total_bets_count: wager_count(state, match_id),
        bet_distribution_a: share_a as u64,
        bet_distribution_b: (100 - share_a) as u64,
        bet_status: status_text(meta.bet_status),
    }
}

/// Whether the pool and the odds of a match fit their fields.
pub open spec fn report_in_limits(meta: MatchMetadataView) -> bool {
    let pool = (meta.total_bets_a + meta.total_bets_b) as nat;
    &&& pool <= u64::MAX
    &&& odds_of(pool, meta.total_bets_a as nat) <= u64::MAX
    &&& odds_of(pool, meta.total_bets_b as nat) <= u64::MAX
}

/// How the status of a season is written.
pub open spec fn season_status_text(status: TournamentStatus) -> Seq<char> {
    match status {
        TournamentStatus::Active => "active"@,
        TournamentStatus::Ended => "ended"@,
    }
}

/// A season as the query surface reports it. A season without metadata is
/// reported under a default name, as ended if its number is below the
/// current one and as active otherwise.
pub open spec fn season_report(state: TournamentStateView, number: u64) -> TournamentInfoView {
    if state.tournament_metadata.contains_key(number) {
        let meta = state.tournament_metadata[number];
        TournamentInfoView {
            number,
            name: meta.name,
            start_time: meta.start_time,
            end_time: meta.end_time,
            duration_micros: match meta.end_time {
                Some(end) => Some((end - meta.start_time) as u64),
                None => None,
            },
            status: season_status_text(meta.status),
            champion: meta.champion,
            runner_up: meta.runner_up,
        }
    } else {
        TournamentInfoView {
            number,
            name: "Tournament "@ + decimal_digits(number as nat),
            start_time: 0,
            end_time: None,
            duration_micros: None,
            status: if number < state.current_tournament {
                "ended"@
            } else {
                "active"@
            },
            champion: None,
            runner_up: None,
        }
    }
}

/// Whether the recorded end of a season is not before its start.
pub open spec fn season_times_in_order(state: TournamentStateView, number: u64) -> bool {
    state.tournament_metadata.contains_key(number) ==> match state.tournament_metadata[number].end_time {
        Some(end) => end >= state.tournament_metadata[number].start_time,
        None => true,
    }
}

/// The recorded results, in the order given.
pub open spec fn results_listing(
    order: Seq<Seq<char>>,
    results: Map<Seq<char>, (Seq<char>, Seq<char>)>,
) -> Seq<MatchResultOutputView> {
    Seq::new(
        order.len(),
        |i: int|
            MatchResultOutputView {
                match_id: order[i],
                winner: results[order[i]].0,
                loser: results[order[i]].1,
            },
    )
}

/// The rows of a leaderboard, in the order given.
pub open spec fn board_listing(order: Seq<Seq<char>>, board: Map<Seq<char>, u64>) -> Seq<
    LeaderboardEntryView,
> {
    Seq::new(
        order.len(),
        |i: int| LeaderboardEntryView { username: order[i], score: board[order[i]] },
    )
}

/// The bracket entries, in the order given.
pub open spec fn bracket_listing(
    order: Seq<Seq<char>>,
    bracket: Map<Seq<char>, TournamentMatchView>,
) -> Seq<TournamentMatchView> {
    Seq::new(order.len(), |i: int| bracket[order[i]])
}

/// The pending claims with their keys, in the order given.
pub open spec fn claims_listing(
    order: Seq<Seq<char>>,
    claims: Map<Seq<char>, PendingClaimView>,
) -> Seq<PendingClaimOutputView> {
    Seq::new(
        order.len(),
        |i: int|
            PendingClaimOutputView {
                user_key: order[i],
                user_chain: claims[order[i]].user_chain,
                user_public_key: claims[order[i]].user_public_key,
                requested_at: claims[order[i]].requested_at,
            },
    )
}

/// The registered user applications as pairs of chain and application, in
/// the order given.
pub open spec fn apps_listing(order: Seq<Seq<char>>, apps: Map<Seq<char>, Seq<char>>) -> Seq<
    (Seq<char>, Seq<char>),
> {
    Seq::new(order.len(), |i: int| (order[i], apps[order[i]]))
}

/// The archived rows of one season, in the order in which `order` lists the
/// keys of the archive.
pub open spec fn season_rows(
    order: Seq<(u64, Seq<char>)>,
    archive: Map<(u64, Seq<char>), u64>,
    season: u64,
) -> Seq<LeaderboardEntryView>
    decreases order.len(),
{
    if order.len() == 0 {
        Seq::empty()
    } else if order.last().0 == season {
        season_rows(order.drop_last(), archive, season).push(
            LeaderboardEntryView { username: order.last().1, score: archive[order.last()] },
        )
    } else {
        season_rows(order.drop_last(), archive, season)
    }
}

/// The archived betting counters of a season, if all three are there.
pub open spec fn archived_counters(state: TournamentStateView, number: u64) -> Option<
    PastTournamentAnalytics,
> {
    if state.past_tournament_bets_placed.contains_key(number)
        && state.past_tournament_bets_settled.contains_key(number)
        && state.past_tournament_payouts.contains_key(number) {
        Some(
            PastTournamentAnalytics {
                tournament_number: number,
                total_bets_placed: state.past_tournament_bets_placed[number],
                total_bets_settled: state.past_tournament_bets_settled[number],
                total_payouts: state.past_tournament_payouts[number],
            },
        )
    } else {
        None
    }
}

/// The archived betting counters of the seasons that `order` lists, where
/// all three are there, in that order.
pub open spec fn counters_listing(order: Seq<u64>, state: TournamentStateView) -> Seq<
    PastTournamentAnalytics,
>
    decreases order.len(),
{
    if order.len() == 0 {
        Seq::empty()
    } else {
        let before = counters_listing(order.drop_last(), state);
        match archived_counters(state, order.last()) {
            Some(counters) => before.push(counters),
            None => before,
        }
    }
}

/// How a status is written.
pub fn bet_status_name(status: MatchBetStatus) -> (name: String)
    ensures
        name@ == status_text(status),
{
    match status {
        MatchBetStatus::Waiting => "Waiting".to_string(),
        MatchBetStatus::Open => "Open".to_string(),
        MatchBetStatus::Closed => "Closed".to_string(),
        MatchBetStatus::Settled => "Settled".to_string(),
    }
}

/// The share of `pool` that `stake` makes up, in percent, rounded down; half
/// where the pool is empty.
pub fn pool_share_percent(stake: u64, pool: u64) -> (share: u64)
    requires
        stake <= pool,
    ensures
        share == pool_share(stake as nat, pool as nat),
        share <= 100,
{
    if pool > 0 {
        let scaled: u128 = (stake as u128) * 100;
        let share: u128 = scaled / (pool as u128);
        assert(share <= 100) by (nonlinear_arith)
            requires
                share == (stake * 100) / (pool as int),
                stake <= pool,
                pool > 0,
        ;
        share as u64
    } else {
        50
    }
}

impl TournamentService {
    /// Whether the pool and the odds of a match fit their fields, so that
    /// [`match_metadata`](TournamentService::match_metadata) may be called.
    pub fn report_within_limits(&self, match_id: &String) -> (ok: bool)
        ensures
            ok == (self.state@.matches.contains_key(match_id@) ==> report_in_limits(
                self.state@.matches[match_id@],
            )),
    {
        match self.state.matches.get(match_id) {
            Some(metadata) => {
                let pool: u128 = metadata.total_bets_a as u128 + metadata.total_bets_b as u128;
                if pool > u64::MAX as u128 {
                    false
                } else {
                    checked_odds(pool as u64, metadata.total_bets_a).is_some() && checked_odds(
                        pool as u64,
                        metadata.total_bets_b,
                    ).is_some()
                }
            },
            None => true,
        }
    }

    /// Whether the recorded end of a season is not before its start, so that
    /// the season can be reported.
    pub fn season_times_are_in_order(&self, tournament_number: u64) -> (ok: bool)
        ensures
            ok == season_times_in_order(self.state@, tournament_number),
    {
        match self.state.tournament_metadata.get(&tournament_number) {
            Some(metadata) => match metadata.end_time {
                Some(end_time) => end_time >= metadata.start_time,
                None => true,
            },
            None => true,
        }
    }

    /// The current season.
    pub fn current_tournament_info(&self) -> (info: Option<TournamentInfo>)
        requires
            season_times_in_order(self.state@, self.state.current_tournament),
        ensures
            info.deep_view() == Some(season_report(self.state@, self.state.current_tournament)),
    {
        self.get_tournament_info(self.state.current_tournament)
    }

    /// The season with the given number.
    pub fn tournament_info(&self, tournament_number: u64) -> (info: Option<TournamentInfo>)
        requires
            season_times_in_order(self.state@, tournament_number),
        ensures
            info.deep_view() == Some(season_report(self.state@, tournament_number)),
    {
        self.get_tournament_info(tournament_number)
    }

    /// The season with the given number, from its metadata or, where it has
    /// none, by default.
    pub fn get_tournament_info(&self, tournament_number: u64) -> (info: Option<TournamentInfo>)
        requires
            season_times_in_order(self.state@, tournament_number),
        ensures
            info.deep_view() == Some(season_report(self.state@, tournament_number)),
    {
        match self.state.tournament_metadata.get(&tournament_number) {
            Some(metadata) => {
                let duration_micros = match metadata.end_time {
                    Some(end_time) => Some(end_time - metadata.start_time),
                    None => None,
                };
                Some(
                    TournamentInfo {
                        number: tournament_number,
                        name: metadata.name.clone(),
                        start_time: metadata.start_time,
                        end_time: metadata.end_time,
                        duration_micros,
                        status: match metadata.status {
                            TournamentStatus::Active => "active".to_string(),
                            TournamentStatus::Ended => "ended".to_string(),
                        },
                        champion: clone_optional_text(&metadata.champion),
                        runner_up: clone_optional_text(&metadata.runner_up),
                    },
                )
            },
            None => {
                let number_text = decimal_text(tournament_number);
                Some(
                    TournamentInfo {
                        number: tournament_number,
                        name: join("Tournament ", number_text.as_str()),
                        start_time: 0,
                        end_time: None,
                        duration_micros: None,
                        status: if tournament_number < self.state.current_tournament {
                            "ended".to_string()
                        } else {
                            "active".to_string()
                        },
                        champion: None,
                        runner_up: None,
                    },
                )
            },
        }
    }

    /// The numbers of the seasons that have metadata.
    pub fn tournament_numbers(&self) -> (numbers: Vec<u64>)
        ensures
            numbers@ == self.state.tournament_metadata.keys(),
    {
        let mut numbers: Vec<u64> = Vec::new();
        let count = self.state.tournament_metadata.len();
        let mut i: usize = 0;
        while i < count
            invariant
                i <= count,
                count == self.state.tournament_metadata.keys().len(),
                numbers@ == self.state.tournament_metadata.keys().take(i as int),
            decreases count - i,
        {
            numbers.push(*self.state.tournament_metadata.key_at(i));
            assert(numbers@ =~= self.state.tournament_metadata.keys().take(i as int + 1));
            i += 1;
        }
        assert(numbers@ =~= self.state.tournament_metadata.keys());
        numbers
    }

    /// The archived leaderboard of a season, highest score first.
    pub fn past_tournament_leaderboard(
        &self,
        tournament_number: u64,
    ) -> (rows: Vec<LeaderboardEntry>)
        ensures
            is_ranking_of::<LeaderboardEntry>(
                rows.deep_view(),
                season_rows(
                    self.state.past_tournament_leaderboards.keys(),
                    self.state@.past_tournament_leaderboards,
                    tournament_number,
                ),
            ),
    {
        self.get_past_tournament_entries(tournament_number)
    }

    /// The participants of the current season.
    pub fn participants(&self) -> (names: Vec<String>)
        ensures
            names.deep_view() == self.state@.participants,
    {
        let mut names: Vec<String> = Vec::new();
        let mut i: usize = 0;
        while i < self.state.participants.len()
            invariant
                i <= self.state.participants.len(),
                names.len() == i,
                forall|j: int| 0 <= j < i ==> names[j]@ == self.state.participants[j]@,
            decreases self.state.participants.len() - i,
        {
            names.push(self.state.participants[i].clone());
            i += 1;
        }
        assert(names.deep_view() =~= self.state.participants.deep_view());
        names
    }

    /// The recorded results.
    pub fn results(&self) -> (output: Vec<MatchResultOutput>)
        ensures
            output.deep_view() == results_listing(self.state.results.keys(), self.state@.results),
    {
        let mut output: Vec<MatchResultOutput> = Vec::new();
        let count = self.state.results.len();
        let ghost listing = results_listing(self.state.results.keys(), self.state@.results);
        let mut i: usize = 0;
        while i < count
            invariant
                i <= count,
                count == self.state.results.keys().len(),
                listing == results_listing(self.state.results.keys(), self.state@.results),
                output.len() == i,
                forall|j: int| 0 <= j < i ==> (#[trigger] output[j]).deep_view() == listing[j],
            decreases count - i,
        {
            let id = self.state.results.key_at(i);
            let pair = self.state.results.value_at(i);
            output.push(
                MatchResultOutput {
                    match_id: id.clone(),
                    winner: pair.0.clone(),
                    loser: pair.1.clone(),
                },
            );
            i += 1;
        }
        assert(output.deep_view() =~= listing);
        output
    }

    /// The rows of the live leaderboard, in table order.
    fn leaderboard_rows(&self) -> (rows: Vec<LeaderboardEntry>)
        ensures
            rows.deep_view() == board_listing(
                self.state.tournament_leaderboard.keys(),
                self.state@.tournament_leaderboard,
            ),
    {
        let mut rows: Vec<LeaderboardEntry> = Vec::new();
        let count = self.state.tournament_leaderboard.len();
        let ghost listing = board_listing(
            self.state.tournament_leaderboard.keys(),
            self.state@.tournament_leaderboard,
        );
        let mut i: usize = 0;
        while i < count
            invariant
                i <= count,
                count == self.state.tournament_leaderboard.keys().len(),
                listing == board_listing(
                    self.state.tournament_leaderboard.keys(),
                    self.state@.tournament_leaderboard,
                ),
                rows.len() == i,
                forall|j: int| 0 <= j < i ==> (#[trigger] rows[j]).deep_view() == listing[j],
            decreases count - i,
        {
            let username = self.state.tournament_leaderboard.key_at(i).clone();
            let score = *self.state.tournament_leaderboard.value_at(i);
            rows.push(LeaderboardEntry { username, score });
            i += 1;
        }
        assert(rows.deep_view() =~= listing);
        rows
    }

    /// The live leaderboard, highest score first.
    pub fn tournament_leaderboard(&self) -> (rows: Vec<LeaderboardEntry>)
        ensures
            is_ranking_of::<LeaderboardEntry>(
                rows.deep_view(),
                board_listing(
                    self.state.tournament_leaderboard.keys(),
                    self.state@.tournament_leaderboard,
                ),
            ),
    {
        sort_by_rank(self.leaderboard_rows())
    }

    /// The bracket.
    pub fn bracket(&self) -> (matches: Vec<TournamentMatch>)
        ensures
            matches.deep_view() == bracket_listing(self.state.bracket.keys(), self.state@.bracket),
    {
        let mut matches: Vec<TournamentMatch> = Vec::new();
        let count = self.state.bracket.len();
        let ghost listing = bracket_listing(self.state.bracket.keys(), self.state@.bracket);
        let mut i: usize = 0;
        while i < count
            invariant
                i <= count,
                count == self.state.bracket.keys().len(),
                listing == bracket_listing(self.state.bracket.keys(), self.state@.bracket),
                matches.len() == i,
                forall|j: int| 0 <= j < i ==> (#[trigger] matches[j]).deep_view() == listing[j],
            decreases count - i,
        {
            matches.push(self.state.bracket.value_at(i).clone());
            i += 1;
        }
        assert(matches.deep_view() =~= listing);
        matches
    }

    /// The wagers on a match that are not settled yet, oldest first.
    pub fn get_bets(&self, match_id: String) -> (bets: Vec<BetEntry>)
        ensures
            bets.deep_view() == crate::tournament::ledger::ledger_of(self.state@, match_id@),
    {
        match self.state.bets.get(&match_id) {
            Some(entries) => clone_ledger(entries),
            None => {
                let none: Vec<BetEntry> = Vec::new();
                assert(none.deep_view() =~= Seq::<BetEntryView>::empty());
                none
            },
        }
    }

    /// Everything about the betting on one match, with odds and shares
    /// computed from the totals of the moment; `None` where the match is not
    /// registered.
    pub fn match_metadata(&self, match_id: String) -> (output: Option<MatchMetadataOutput>)
        requires
            self.state@.matches.contains_key(match_id@) ==> report_in_limits(
                self.state@.matches[match_id@],
            ),
        ensures
            output.deep_view() == if self.state@.matches.contains_key(match_id@) {
                Some(match_report(self.state@, match_id@))
            } else {
                None
            },
    {
        match self.state.matches.get(&match_id) {
            Some(metadata) => {
                let total_bets_count = if metadata.bet_status == MatchBetStatus::Settled {
                    metadata.total_bets_count
                } else {
                    match self.state.bets.get(&match_id) {
                        Some(bets) => bets.len() as u64,
                        None => 0,
                    }
                };
                let total_pool = metadata.total_bets_a + metadata.total_bets_b;
                let odds_a = calculate_odds(total_pool, metadata.total_bets_a);
                let odds_b = calculate_odds(total_pool, metadata.total_bets_b);
                let bet_distribution_a = pool_share_percent(metadata.total_bets_a, total_pool);
                let bet_distribution_b = 100 - bet_distribution_a;
                Some(
                    MatchMetadataOutput {
                        match_id: metadata.match_id.clone(),
                        player1: metadata.player1.clone(),
                        player2: metadata.player2.clone(),
                        betting_deadline_unix: metadata.betting_deadline_unix,
                        betting_start_unix: metadata.betting_start_unix,
                        odds_a,
                        odds_b,
                        total_bets_a: metadata.total_bets_a,
                        total_bets_b: metadata.total_bets_b,
                        total_pool,
                        total_bets_count,
                        bet_distribution_a,
                        bet_distribution_b,
                        bet_status: bet_status_name(metadata.bet_status),
                    },
                )
            },
            None => None,
        }
    }

    /// The user applications registered per chain, as pairs of chain and
    /// application.
    pub fn registered_userxfighter_apps(&self) -> (apps: Vec<(String, String)>)
        ensures
            apps.deep_view() == apps_listing(
                self.state.user_xfighter_app_ids.keys(),
                self.state@.user_xfighter_app_ids,
            ),
    {
        let mut apps: Vec<(String, String)> = Vec::new();
        let count = self.state.user_xfighter_app_ids.len();
        let ghost listing = apps_listing(
            self.state.user_xfighter_app_ids.keys(),
            self.state@.user_xfighter_app_ids,
        );
        let mut i: usize = 0;
        while i < count
            invariant
                i <= count,
                count == self.state.user_xfighter_app_ids.keys().len(),
                listing == apps_listing(
                    self.state.user_xfighter_app_ids.keys(),
                    self.state@.user_xfighter_app_ids,
                ),
                apps.len() == i,
                forall|j: int| 0 <= j < i ==> (#[trigger] apps[j]).deep_view() == listing[j],
            decreases count - i,
        {
            let chain_id = self.state.user_xfighter_app_ids.key_at(i).clone();
            let app_id = self.state.user_xfighter_app_ids.value_at(i).clone();
            apps.push((chain_id, app_id));
            i += 1;
        }
        assert(apps.deep_view() =~= listing);
        apps
    }

    /// The betting counters of the current season.
    pub fn betting_analytics(&self) -> (analytics: BettingAnalytics)
        ensures
            analytics == (BettingAnalytics {
                current_total_bets_placed: self.state.current_total_bets_placed,
                current_total_bets_settled: self.state.current_total_bets_settled,
                current_total_payouts: self.state.current_total_payouts,
                current_tournament: self.state.current_tournament,
            }),
    {
        BettingAnalytics {
            current_total_bets_placed: self.state.current_total_bets_placed,
            current_total_bets_settled: self.state.current_total_bets_settled,
            current_total_payouts: self.state.current_total_payouts,
            current_tournament: self.state.current_tournament,
        }
    }

    /// The archived betting counters of a season, if all three are there.
    pub fn past_tournament_analytics(&self, tournament_number: u64) -> (analytics: Option<
        PastTournamentAnalytics,
    >)
        ensures
            analytics == archived_counters(self.state@, tournament_number),
    {
        self.get_past_tournament_analytics_internal(tournament_number)
    }

    /// The archived betting counters of every season, latest season first.
    pub fn all_tournament_analytics(&self) -> (analytics: Vec<PastTournamentAnalytics>)
        ensures
            is_ranking_of::<PastTournamentAnalytics>(
                analytics.deep_view(),
                counters_listing(self.state.past_tournament_bets_placed.keys(), self.state@),
            ),
    {
        self.get_all_tournament_analytics_internal()
    }

    /// The airdrop settings.
    pub fn airdrop_info(&self) -> (info: AirdropInfo)
        ensures
            info.amount == self.state.airdrop_amount,
    {
        AirdropInfo { amount: self.state.airdrop_amount }
    }

    /// The claims that wait to be processed.
    pub fn pending_claims(&self) -> (claims: Vec<PendingClaimOutput>)
        ensures
            claims.deep_view() == claims_listing(
                self.state.pending_claims.keys(),
                self.state@.pending_claims,
            ),
    {
        let mut claims: Vec<PendingClaimOutput> = Vec::new();
        let count = self.state.pending_claims.len();
        let ghost listing = claims_listing(
            self.state.pending_claims.keys(),
            self.state@.pending_claims,
        );
        let mut i: usize = 0;
        while i < count
            invariant
                i <= count,
                count == self.state.pending_claims.keys().len(),
                listing == claims_listing(
                    self.state.pending_claims.keys(),
                    self.state@.pending_claims,
                ),
                claims.len() == i,
                forall|j: int| 0 <= j < i ==> (#[trigger] claims[j]).deep_view() == listing[j],
            decreases count - i,
        {
            let key = self.state.pending_claims.key_at(i);
            let claim = self.state.pending_claims.value_at(i);
            claims.push(
                PendingClaimOutput {
                    user_key: key.clone(),
                    user_chain: claim.user_chain.clone(),
                    user_public_key: claim.user_public_key.clone(),
                    requested_at: claim.requested_at,
                },
            );
            i += 1;
        }
        assert(claims.deep_view() =~= listing);
        claims
    }

    /// The archived leaderboard of a season, highest score first.
    pub fn get_past_tournament_entries(
        &self,
        tournament_number: u64,
    ) -> (rows: Vec<LeaderboardEntry>)
        ensures
            is_ranking_of::<LeaderboardEntry>(
                rows.deep_view(),
                season_rows(
                    self.state.past_tournament_leaderboards.keys(),
                    self.state@.past_tournament_leaderboards,
                    tournament_number,
                ),
            ),
    {
        let mut entries: Vec<LeaderboardEntry> = Vec::new();
        let count = self.state.past_tournament_leaderboards.len();
        let ghost order = self.state.past_tournament_leaderboards.keys();
        let ghost archive = self.state@.past_tournament_leaderboards;
        let mut i: usize = 0;
        proof {
            assert(order.take(0) =~= Seq::<(u64, Seq<char>)>::empty());
            assert(entries.deep_view() =~= Seq::<LeaderboardEntryView>::empty());
        }
        while i < count
            invariant
                i <= count,
                count == order.len(),
                order == self.state.past_tournament_leaderboards.keys(),
                archive == self.state@.past_tournament_leaderboards,
                entries.deep_view() == season_rows(order.take(i as int), archive, tournament_number),
            decreases count - i,
        {
            let key = self.state.past_tournament_leaderboards.key_at(i);
            let score = *self.state.past_tournament_leaderboards.value_at(i);
            let ghost so_far = entries.deep_view();
            proof {
                assert(order.take(i as int + 1).drop_last() =~= order.take(i as int));
                assert(order.take(i as int + 1).last() == order[i as int]);
            }
            if key.0 == tournament_number {
                let row = LeaderboardEntry { username: key.1.clone(), score };
                entries.push(row);
                assert(entries.deep_view() =~= so_far.push(
                    LeaderboardEntryView { username: order[i as int].1, score: archive[order[i as int]] },
                ));
            }
            i += 1;
        }
        proof {
            assert(order.take(i as int) =~= order);
        }
        sort_by_rank(entries)
    }

    /// The archived betting counters of a season, if all three are there.
    pub fn get_past_tournament_analytics_internal(
        &self,
        tournament_number: u64,
    ) -> (analytics: Option<
        PastTournamentAnalytics,
    >)
        ensures
            analytics == archived_counters(self.state@, tournament_number),
    {
        let bets_placed = self.state.past_tournament_bets_placed.get(&tournament_number);
        let bets_settled = self.state.past_tournament_bets_settled.get(&tournament_number);
        let payouts = self.state.past_tournament_payouts.get(&tournament_number);
        match (bets_placed, bets_settled, payouts) {
            (Some(bets_placed), Some(bets_settled), Some(payouts)) => Some(
                PastTournamentAnalytics {
                    tournament_number,
                    total_bets_placed: *bets_placed,
                    total_bets_settled: *bets_settled,
                    total_payouts: *payouts,
                },
            ),
            _ => None,
        }
    }

    /// The archived betting counters of every season, latest season first.
    pub fn get_all_tournament_analytics_internal(&self) -> (analytics: Vec<PastTournamentAnalytics>)
        ensures
            is_ranking_of::<PastTournamentAnalytics>(
                analytics.deep_view(),
                counters_listing(self.state.past_tournament_bets_placed.keys(), self.state@),
            ),
    {
        let mut analytics: Vec<PastTournamentAnalytics> = Vec::new();
        let count = self.state.past_tournament_bets_placed.len();
        let ghost order = self.state.past_tournament_bets_placed.keys();
        let mut i: usize = 0;
        proof {
            assert(order.take(0) =~= Seq::<u64>::empty());
            assert(analytics.deep_view() =~= Seq::<PastTournamentAnalytics>::empty());
        }
        while i < count
            invariant
                i <= count,
                count == order.len(),
                order == self.state.past_tournament_bets_placed.keys(),
                analytics.deep_view() == counters_listing(order.take(i as int), self.state@),
            decreases count - i,
        {
            let tournament_number = *self.state.past_tournament_bets_placed.key_at(i);
            let ghost so_far = analytics.deep_view();
            proof {
                assert(order.take(i as int + 1).drop_last() =~= order.take(i as int));
                assert(order.take(i as int + 1).last() == order[i as int]);
            }
            match self.get_past_tournament_analytics_internal(tournament_number) {
                Some(analytic) => {
                    analytics.push(analytic);
                    assert(analytics.deep_view() =~= so_far.push(analytic));
                },
                None => {},
            }
            i += 1;
        }
        proof {
            assert(order.take(i as int) =~= order);
        }
        sort_by_rank(analytics)
    }
}

} // verus!
