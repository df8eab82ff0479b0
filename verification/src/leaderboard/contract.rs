//! The operations and messages of the leaderboard application.

use vstd::prelude::*;
use crate::leaderboard::state::{
    ArchiveView,
    Board,
    BoardView,
    LeaderboardState,
    LeaderboardStateView,
};
use crate::leaderboard::{
    Operation,
    OperationView,
    RecordScoreMessage,
    SeasonMetadata,
    SeasonMetadataView,
    SeasonStatus,
};
use crate::store::lemma_prefix_set_step;
use crate::text::{decimal_digits, decimal_text, join};
use crate::store::score_of;

verus! {

/// The leaderboard application: its state and the time of the block it runs in.
pub struct LeaderboardContract {
    pub state: LeaderboardState,
    /// The time of the block, in microseconds.
    pub system_time_micros: u64,
}

/// A board after one more match of `user`, won or lost: the matches and the
/// wins or losses of the user raised by one, and the score set to the wins.
pub open spec fn board_with_match(board: BoardView, user: Seq<char>, is_winner: bool) -> BoardView {
    let wins = if is_winner {
        (score_of(board.total_wins, user) + 1) as u64
    } else {
        score_of(board.total_wins, user)
    };
    let losses = if is_winner {
        score_of(board.total_losses, user)
    } else {
        (score_of(board.total_losses, user) + 1) as u64
    };
    BoardView {
        total_wins: board.total_wins.insert(user, wins),
        total_losses: board.total_losses.insert(user, losses),
        total_matches: board.total_matches.insert(
            user,
            (score_of(board.total_matches, user) + 1) as u64,
        ),
        scores: board.scores.insert(user, wins),
    }
}

/// Whether the counters of `user` on a board have room for one more match.
pub open spec fn board_has_room(board: BoardView, user: Seq<char>) -> bool {
    &&& score_of(board.total_wins, user) < u64::MAX
    &&& score_of(board.total_losses, user) < u64::MAX
    &&& score_of(board.total_matches, user) < u64::MAX
}

/// Whether results are counted: the current season is not recorded as ended.
pub open spec fn counts_results(state: LeaderboardStateView) -> bool {
    state.season_metadata.contains_key(state.current_season)
        ==> state.season_metadata[state.current_season].status == SeasonStatus::Active
}

/// The state after the result of one match was reported for `user` at `now`.
/// While the current season is recorded as ended, nothing is counted.
pub open spec fn after_score(
    state: LeaderboardStateView,
    now: u64,
    user: Seq<char>,
    is_winner: bool,
    match_id: Seq<char>,
) -> LeaderboardStateView {
    if !counts_results(state) {
        state
    } else {
        LeaderboardStateView {
            global: board_with_match(state.global, user, is_winner),
            season: board_with_match(state.season, user, is_winner),
            processed_match_ids: state.processed_match_ids.insert(match_id, true),
            last_play_timestamps: state.last_play_timestamps.insert(user, now),
            ..state
        }
    }
}

/// Whether `user` has a row in each of the four counters of a board.
pub open spec fn has_full_row(board: BoardView, user: Seq<char>) -> bool {
    &&& board.scores.contains_key(user)
    &&& board.total_matches.contains_key(user)
    &&& board.total_wins.contains_key(user)
    &&& board.total_losses.contains_key(user)
}

/// One archived counter once the rows of `names` that are complete on
/// `board` have been copied into it for `season`.
pub open spec fn counter_archived(
    past: Map<(u64, Seq<char>), u64>,
    season: u64,
    board: BoardView,
    counter: Map<Seq<char>, u64>,
    names: Set<Seq<char>>,
) -> Map<(u64, Seq<char>), u64> {
    Map::new(
        |k: (u64, Seq<char>)|
            past.contains_key(k) || (k.0 == season && names.contains(k.1) && has_full_row(
                board,
                k.1,
            )),
        |k: (u64, Seq<char>)|
            if k.0 == season && names.contains(k.1) && has_full_row(board, k.1) {
                counter[k.1]
            } else {
                past[k]
            },
    )
}

/// The archive once the rows of `names` that are complete on `board` have
/// been copied into it for `season`.
pub open spec fn archived(
    past: ArchiveView,
    season: u64,
    board: BoardView,
    names: Set<Seq<char>>,
) -> ArchiveView {
    ArchiveView {
        scores: counter_archived(past.scores, season, board, board.scores, names),
        matches: counter_archived(past.matches, season, board, board.total_matches, names),
        wins: counter_archived(past.wins, season, board, board.total_wins, names),
        losses: counter_archived(past.losses, season, board, board.total_losses, names),
    }
}

/// The state after the current season was ended at `now`: its metadata
/// stamped, and every complete row of the season board copied into the
/// archive under the season's number. The season board stays as it is.
pub open spec fn after_season_end(state: LeaderboardStateView, now: u64) -> LeaderboardStateView {
    let season = state.current_season;
    LeaderboardStateView {
        season_metadata: if state.season_metadata.contains_key(season) {
            state.season_metadata.insert(
                season,
                SeasonMetadataView {
                    status: SeasonStatus::Ended,
                    end_time: Some(now),
                    ..state.season_metadata[season]
                },
            )
        } else {
            state.season_metadata
        },
        past: archived(state.past, season, state.season, state.season.scores.dom()),
        ..state
    }
}

/// A board without the rows of `names`.
pub open spec fn board_without(board: BoardView, names: Set<Seq<char>>) -> BoardView {
    BoardView {
        scores: board.scores.remove_keys(names),
        total_matches: board.total_matches.remove_keys(names),
        total_wins: board.total_wins.remove_keys(names),
        total_losses: board.total_losses.remove_keys(names),
    }
}

/// Whether the current season is recorded as active.
pub open spec fn season_is_active(state: LeaderboardStateView) -> bool {
    state.season_metadata.contains_key(state.current_season)
        && state.season_metadata[state.current_season].status == SeasonStatus::Active
}

/// The state after a new season was started at `now`: the current season
/// ended first if it was still active, the rows of every user with a season
/// score removed from the season board, and the next season number recorded
/// as active under its default name.
pub open spec fn after_season_start(state: LeaderboardStateView, now: u64) -> LeaderboardStateView {
    let closed = if season_is_active(state) {
        after_season_end(state, now)
    } else {
        state
    };
    let next = (state.current_season + 1) as u64;
    LeaderboardStateView {
        season: board_without(state.season, state.season.scores.dom()),
        season_metadata: closed.season_metadata.insert(
            next,
            SeasonMetadataView {
                name: "Season "@ + decimal_digits(next as nat),
                start_time: now,
                end_time: None,
                status: SeasonStatus::Active,
            },
        ),
        current_season: next,
        ..closed
    }
}

/// The state after the application was set up: season 0 recorded as ended.
pub open spec fn after_instantiate(state: LeaderboardStateView) -> LeaderboardStateView {
    LeaderboardStateView {
        season_metadata: state.season_metadata.insert(
            0,
            SeasonMetadataView {
                name: "Season 0"@,
                start_time: 0,
                end_time: Some(0),
                status: SeasonStatus::Ended,
            },
        ),
        current_season: 0,
        ..state
    }
}

/// Whether an operation stays within the limits of the machine.
pub open spec fn operation_in_limits(
    state: LeaderboardStateView,
    operation: OperationView,
) -> bool {
    match operation {
        OperationView::RecordScore { user_name, .. } => counts_results(state) ==> board_has_room(
            state.global,
            user_name,
        ) && board_has_room(state.season, user_name),
        OperationView::StartSeason { .. } => state.current_season < u64::MAX,
        OperationView::EndSeason => true,
    }
}

/// The state after an operation at `now`.
pub open spec fn after_operation(
    state: LeaderboardStateView,
    now: u64,
    operation: OperationView,
) -> LeaderboardStateView {
    match operation {
        OperationView::RecordScore { user_name, is_winner, match_id } => after_score(
            state,
            now,
            user_name,
            is_winner,
            match_id,
        ),
        OperationView::StartSeason { .. } => after_season_start(state, now),
        OperationView::EndSeason => after_season_end(state, now),
    }
}

/// The counter of `user` in a table; zero where it has none.
fn counter_of(table: &crate::store::Table<String, u64>, user: &String) -> (count: u64)
    ensures
        count == score_of(table@, user@),
{
    match table.get(user) {
        Some(count) => *count,
        None => 0,
    }
}

impl Board {
    /// Counts one more match of `user`, won or lost.
    pub fn count_match(&mut self, user: &String, is_winner: bool)
        requires
            board_has_room(old(self)@, user@),
        ensures
            final(self)@ == board_with_match(old(self)@, user@, is_winner),
    {
        let mut wins = counter_of(&self.total_wins, user);
        let mut losses = counter_of(&self.total_losses, user);
        let mut matches = counter_of(&self.total_matches, user);
        if is_winner {
            wins = wins + 1;
        } else {
            losses = losses + 1;
        }
        matches = matches + 1;
        let score = wins;
        self.total_wins.insert(user.clone(), wins);
        self.total_losses.insert(user.clone(), losses);
        self.total_matches.insert(user.clone(), matches);
        self.scores.insert(user.clone(), score);
    }
}

impl Board {
    /// Whether the counters of `user` have room for one more match.
    pub fn has_room(&self, user: &String) -> (room: bool)
        ensures
            room == board_has_room(self@, user@),
    {
        counter_of(&self.total_wins, user) < u64::MAX && counter_of(&self.total_losses, user)
            < u64::MAX && counter_of(&self.total_matches, user) < u64::MAX
    }
}

impl LeaderboardContract {
    /// Whether results are counted now.
    pub fn counts_results_now(&self) -> (counted: bool)
        ensures
            counted == counts_results(self.state@),
    {
        match self.state.season_metadata.get(&self.state.current_season) {
            Some(metadata) => metadata.status == SeasonStatus::Active,
            None => true,
        }
    }

    /// Whether a result for `user_name` may be reported: the counters that
    /// it would raise have room.
    pub fn score_within_limits(&self, user_name: &String) -> (ok: bool)
        ensures
            ok == (counts_results(self.state@) ==> board_has_room(self.state@.global, user_name@)
                && board_has_room(self.state@.season, user_name@)),
    {
        if !self.counts_results_now() {
            return true;
        }
        self.state.global.has_room(user_name) && self.state.season.has_room(user_name)
    }

    /// Whether [`execute_operation`](LeaderboardContract::execute_operation)
    /// may be called with this operation.
    pub fn operation_within_limits(&self, operation: &Operation) -> (ok: bool)
        ensures
            ok == operation_in_limits(self.state@, operation.deep_view()),
    {
        match operation {
            Operation::RecordScore { user_name, .. } => self.score_within_limits(user_name),
            Operation::StartSeason { .. } => self.state.current_season < u64::MAX,
            Operation::EndSeason => true,
        }
    }

    /// The application at time `system_time_micros` with nothing stored yet.
    pub fn load(system_time_micros: u64) -> (contract: Self)
        ensures
            contract.state@ == LeaderboardState::empty_view(),
            contract.system_time_micros == system_time_micros,
    {
        LeaderboardContract { state: LeaderboardState::new(), system_time_micros }
    }

    /// Sets the application up: season 0 is recorded as ended.
    pub fn instantiate(&mut self)
        ensures
            final(self).state@ == after_instantiate(old(self).state@),
            final(self).system_time_micros == old(self).system_time_micros,
    {
        let season_0_metadata = SeasonMetadata {
            name: "Season 0".to_string(),
            start_time: 0,
            end_time: Some(0),
            status: SeasonStatus::Ended,
        };
        self.state.season_metadata.insert(0, season_0_metadata);
        self.state.current_season = 0;
    }

    /// Carries out an operation.
    pub fn execute_operation(&mut self, operation: Operation)
        requires
            operation_in_limits(old(self).state@, operation.deep_view()),
        ensures
            final(self).state@ == after_operation(
                old(self).state@,
                old(self).system_time_micros,
                operation.deep_view(),
            ),
            final(self).system_time_micros == old(self).system_time_micros,
    {
        match operation {
            Operation::RecordScore { user_name, is_winner, match_id } => {
                self.update_score_and_stats(user_name, is_winner, match_id);
            },
            Operation::StartSeason { name } => {
                self.start_season(name);
            },
            Operation::EndSeason => {
                self.end_season();
            },
        }
    }

    /// Handles the result of a match that was reported from another chain.
    pub fn execute_message(&mut self, message: RecordScoreMessage)
        requires
            counts_results(old(self).state@) ==> board_has_room(
                old(self).state@.global,
                message.user_name@,
            ) && board_has_room(old(self).state@.season, message.user_name@),
        ensures
            final(self).state@ == after_score(
                old(self).state@,
                old(self).system_time_micros,
                message.user_name@,
                message.is_winner,
                message.match_id@,
            ),
            final(self).system_time_micros == old(self).system_time_micros,
    {
        let RecordScoreMessage { user_name, is_winner, match_id } = message;
        self.update_score_and_stats(user_name, is_winner, match_id);
    }

    /// Counts the result of one match for `user_name`, over all time and for
    /// the current season, unless the current season is recorded as ended.
    pub fn update_score_and_stats(&mut self, user_name: String, is_winner: bool, match_id: String)
        requires
            counts_results(old(self).state@) ==> board_has_room(old(self).state@.global, user_name@)
                && board_has_room(old(self).state@.season, user_name@),
        ensures
            final(self).state@ == after_score(
                old(self).state@,
                old(self).system_time_micros,
                user_name@,
                is_winner,
                match_id@,
            ),
            final(self).system_time_micros == old(self).system_time_micros,
    {
        let current_season = self.state.current_season;
        let ended = match self.state.season_metadata.get(&current_season) {
            Some(metadata) => metadata.status != SeasonStatus::Active,
            None => false,
        };
        if ended {
            return ;
        }
        self.state.global.count_match(&user_name, is_winner);
        self.state.season.count_match(&user_name, is_winner);
        self.state.processed_match_ids.insert(match_id, true);
        let current_time = self.system_time_micros;
        self.state.last_play_timestamps.insert(user_name, current_time);
    }

    /// Starts a new season, after ending the current one if it is still
    /// active. The season is named after its number.
    pub fn start_season(&mut self, _name: String)
        requires
            old(self).state.current_season < u64::MAX,
        ensures
            final(self).state@ == after_season_start(
                old(self).state@,
                old(self).system_time_micros,
            ),
            final(self).system_time_micros == old(self).system_time_micros,
    {
        let now = self.system_time_micros;
        let current_season = self.state.current_season;
        let active = match self.state.season_metadata.get(&current_season) {
            Some(metadata) => metadata.status == SeasonStatus::Active,
            None => false,
        };
        if active {
            self.end_season();
        }
        let ghost closed = self.state@;
        let ghost names = self.state.season.scores.keys();
        let count = self.state.season.scores.len();
        let mut i: usize = 0;
        proof {
            assert(names.take(0).to_set() =~= Set::<Seq<char>>::empty());
            assert(closed.season.total_matches.remove_keys(Set::empty())
                =~= closed.season.total_matches);
            assert(closed.season.total_wins.remove_keys(Set::empty()) =~= closed.season.total_wins);
            assert(closed.season.total_losses.remove_keys(Set::empty())
                =~= closed.season.total_losses);
        }
        while i < count
            invariant
                i <= count,
                count == names.len(),
                names == self.state.season.scores.keys(),
                self.system_time_micros == now,
                self.state@ == (LeaderboardStateView {
                    season: BoardView {
                        scores: closed.season.scores,
                        ..board_without(closed.season, names.take(i as int).to_set())
                    },
                    ..closed
                }),
            decreases count - i,
        {
            let user_name = self.state.season.scores.key_at(i);
            self.state.season.total_matches.remove(user_name);
            self.state.season.total_wins.remove(user_name);
            self.state.season.total_losses.remove(user_name);
            proof {
                lemma_prefix_set_step(names, i as int);
                let done = names.take(i as int).to_set();
                let next = names[i as int];
                assert(self.state.season.total_matches@ =~= closed.season.total_matches.remove_keys(
                    done.insert(next),
                ));
                assert(self.state.season.total_wins@ =~= closed.season.total_wins.remove_keys(
                    done.insert(next),
                ));
                assert(self.state.season.total_losses@ =~= closed.season.total_losses.remove_keys(
                    done.insert(next),
                ));
            }
            i += 1;
        }
        proof {
            assert(names.take(i as int) =~= names);
            self.state.season.scores.lemma_keys_are_domain();
            assert(closed.season.scores.remove_keys(closed.season.scores.dom()) =~= Map::<
                Seq<char>,
                u64,
            >::empty());
        }
        self.state.season.scores.clear();
        let new_season = current_season + 1;
        let number_text = decimal_text(new_season);
        let new_metadata = SeasonMetadata {
            name: join("Season ", number_text.as_str()),
            start_time: now,
            end_time: None,
            status: SeasonStatus::Active,
        };
        self.state.season_metadata.insert(new_season, new_metadata);
        self.state.current_season = new_season;
    }

    /// Ends the current season: stamps its metadata and copies the season
    /// board into the archive. The season board stays as it is.
    pub fn end_season(&mut self)
        ensures
            final(self).state@ == after_season_end(old(self).state@, old(self).system_time_micros),
            final(self).system_time_micros == old(self).system_time_micros,
    {
        let ghost before = self.state@;
        let now = self.system_time_micros;
        let current_season = self.state.current_season;
        let found = match self.state.season_metadata.get(&current_season) {
            Some(metadata) => Some(metadata.clone()),
            None => None,
        };
        if let Some(mut metadata) = found {
            metadata.status = SeasonStatus::Ended;
            metadata.end_time = Some(now);
            self.state.season_metadata.insert(current_season, metadata);
        }
        let ghost stamped = self.state@;
        let ghost names = self.state.season.scores.keys();
        let ghost board = before.season;
        let count = self.state.season.scores.len();
        let mut i: usize = 0;
        proof {
            assert(names.take(0).to_set() =~= Set::<Seq<char>>::empty());
            let none = Set::<Seq<char>>::empty();
            assert(before.past.scores =~= counter_archived(
                before.past.scores,
                current_season,
                board,
                board.scores,
                none,
            ));
            assert(before.past.matches =~= counter_archived(
                before.past.matches,
                current_season,
                board,
                board.total_matches,
                none,
            ));
            assert(before.past.wins =~= counter_archived(
                before.past.wins,
                current_season,
                board,
                board.total_wins,
                none,
            ));
            assert(before.past.losses =~= counter_archived(
                before.past.losses,
                current_season,
                board,
                board.total_losses,
                none,
            ));
        }
        while i < count
            invariant
                i <= count,
                count == names.len(),
                names == self.state.season.scores.keys(),
                self.system_time_micros == now,
                stamped.season == board,
                stamped.past == before.past,
                self.state@ == (LeaderboardStateView {
                    past: archived(before.past, current_season, board, names.take(i as int).to_set()),
                    ..stamped
                }),
            decreases count - i,
        {
            let user_name = self.state.season.scores.key_at(i);
            let score = *self.state.season.scores.value_at(i);
            let matches = self.state.season.total_matches.get(user_name);
            let wins = self.state.season.total_wins.get(user_name);
            let losses = self.state.season.total_losses.get(user_name);
            let ghost done = names.take(i as int).to_set();
            let ghost next = names[i as int];
            proof {
                lemma_prefix_set_step(names, i as int);
            }
            match (matches, wins, losses) {
                (Some(matches), Some(wins), Some(losses)) => {
                    let (matches, wins, losses) = (*matches, *wins, *losses);
                    let user = user_name.clone();
                    self.state.past.scores.insert((current_season, user.clone()), score);
                    self.state.past.matches.insert((current_season, user.clone()), matches);
                    self.state.past.wins.insert((current_season, user.clone()), wins);
                    self.state.past.losses.insert((current_season, user), losses);
                    proof {
                        assert(has_full_row(board, next));
                    }
                },
                _ => {
                    proof {
                        assert(!has_full_row(board, next));
                    }
                },
            }
            proof {
                assert(self.state.past.scores@ =~= counter_archived(
                    before.past.scores,
                    current_season,
                    board,
                    board.scores,
                    done.insert(next),
                ));
                assert(self.state.past.matches@ =~= counter_archived(
                    before.past.matches,
                    current_season,
                    board,
                    board.total_matches,
                    done.insert(next),
                ));
                assert(self.state.past.wins@ =~= counter_archived(
                    before.past.wins,
                    current_season,
                    board,
                    board.total_wins,
                    done.insert(next),
                ));
                assert(self.state.past.losses@ =~= counter_archived(
                    before.past.losses,
                    current_season,
                    board,
                    board.total_losses,
                    done.insert(next),
                ));
            }
            i += 1;
        }
        proof {
            assert(names.take(i as int) =~= names);
            self.state.season.scores.lemma_keys_are_domain();
        }
    }
}

} // verus!
