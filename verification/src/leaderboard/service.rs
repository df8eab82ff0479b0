//! The read-only side of the leaderboard application.
//!
//! Leaderboards are ordered by score, highest first; rows of equal score come
//! in the order in which the underlying table lists them.

use vstd::prelude::*;
use crate::leaderboard::state::{BoardView, LeaderboardState, LeaderboardStateView};
use crate::leaderboard::{
    LeaderboardEntry, LeaderboardEntryView, SeasonInfo, SeasonInfoView, SeasonStatus,
    UserGlobalStats, UserGlobalStatsView,
};
use crate::ranking::{is_ranking_of, sort_by_rank};
use crate::store::Table;
use crate::text::{decimal_digits, decimal_text, join};
use crate::store::score_of;

verus! {

/// Rows shown by the short leaderboard of a season.
pub const TOP_ROWS: u64 = 8;

/// The read-only side of the leaderboard application.
pub struct LeaderboardService {
    pub state: LeaderboardState,
}

/// The row of `user` on a board; a counter the user has no row in counts as zero.
pub open spec fn board_row(board: BoardView, user: Seq<char>) -> LeaderboardEntryView {
    LeaderboardEntryView {
        user_name: user,
        score: score_of(board.scores, user),
        total_matches: score_of(board.total_matches, user),
        total_wins: score_of(board.total_wins, user),
        total_losses: score_of(board.total_losses, user),
    }
}

/// The rows of a board for the users that `order` lists, in that order.
pub open spec fn board_rows(order: Seq<Seq<char>>, board: BoardView) -> Seq<LeaderboardEntryView> {
    Seq::new(order.len(), |i: int| board_row(board, order[i]))
}

/// The archived row of `user` in `season`; a counter that is missing counts
/// as zero.
pub open spec fn archive_row(
    past: crate::leaderboard::state::ArchiveView,
    season: u64,
    user: Seq<char>,
) -> LeaderboardEntryView {
    let key = (season, user);
    LeaderboardEntryView {
        user_name: user,
        score: if past.scores.contains_key(key) {
            past.scores[key]
        } else {
            0
        },
        total_matches: if past.matches.contains_key(key) {
            past.matches[key]
        } else {
            0
        },
        total_wins: if past.wins.contains_key(key) {
            past.wins[key]
        } else {
            0
        },
        total_losses: if past.losses.contains_key(key) {
            past.losses[key]
        } else {
            0
        },
    }
}

/// The archived rows of one season, in the order in which `order` lists the
/// keys of the archived scores.
pub open spec fn season_rows(
    order: Seq<(u64, Seq<char>)>,
    past: crate::leaderboard::state::ArchiveView,
    season: u64,
) -> Seq<LeaderboardEntryView>
    decreases order.len(),
{
    if order.len() == 0 {
        Seq::empty()
    } else if order.last().0 == season {
        season_rows(order.drop_last(), past, season).push(archive_row(past, season, order.last().1))
    } else {
        season_rows(order.drop_last(), past, season)
    }
}

/// How many rows are shown out of `available`: all where there is no limit.
pub open spec fn shown(limit: Option<u64>, available: nat) -> nat {
    match limit {
        Some(n) => if n < available {
            n as nat
        } else {
            available
        },
        None => available,
    }
}

/// Whether `rows` are the first rows, as far as `limit` allows, of `all`
/// ordered by score.
pub open spec fn is_top_of(
    rows: Seq<LeaderboardEntryView>,
    all: Seq<LeaderboardEntryView>,
    limit: Option<u64>,
) -> bool {
    exists|ranking: Seq<LeaderboardEntryView>|
        is_ranking_of::<LeaderboardEntry>(ranking, all) && ranking.len() == all.len()
            && #[trigger] ranking.take(shown(limit, all.len()) as int) == rows
}

/// The number of keys that `order` lists for `season`.
pub open spec fn players_in(order: Seq<(u64, Seq<char>)>, season: u64) -> nat
    decreases order.len(),
{
    if order.len() == 0 {
        0
    } else if order.last().0 == season {
        players_in(order.drop_last(), season) + 1
    } else {
        players_in(order.drop_last(), season)
    }
}

/// How the status of a season is written.
pub open spec fn season_status_text(status: SeasonStatus) -> Seq<char> {
    match status {
        SeasonStatus::Active => "active"@,
        SeasonStatus::Ended => "ended"@,
    }
}

/// A season as the query surface reports it. `archived_players` is the
/// number of users with an archived score for the season. A season without
/// metadata is reported under a default name, without players, as ended if
/// its number is below the current one and as active otherwise.
pub open spec fn season_report(
    state: LeaderboardStateView,
    number: u64,
    archived_players: nat,
) -> SeasonInfoView {
    if state.season_metadata.contains_key(number) {
        let meta = state.season_metadata[number];
        SeasonInfoView {
            number,
            name: meta.name,
            start_time: meta.start_time,
            end_time: meta.end_time,
            duration_micros: match meta.end_time {
                Some(end) => Some((end - meta.start_time) as u64),
                None => None,
            },
            status: season_status_text(meta.status),
            total_players: if number == state.current_season {
                state.season.scores.dom().len() as u64
            } else {
                archived_players as u64
            },
        }
    } else {
        SeasonInfoView {
            number,
            name: "Season "@ + decimal_digits(number as nat),
            start_time: 0,
            end_time: None,
            duration_micros: None,
            status: if number < state.current_season {
                "ended"@
            } else {
                "active"@
            },
            total_players: 0,
        }
    }
}

/// Whether the recorded end of a season is not before its start.
pub open spec fn season_times_in_order(state: LeaderboardStateView, number: u64) -> bool {
    state.season_metadata.contains_key(number) ==> match state.season_metadata[number].end_time {
        Some(end) => end >= state.season_metadata[number].start_time,
        None => true,
    }
}

/// The all-time counters of a user, if the user has played.
pub open spec fn global_stats(state: LeaderboardStateView, user: Seq<char>) -> Option<
    UserGlobalStatsView,
> {
    if score_of(state.global.total_matches, user) == 0 {
        None
    } else {
        Some(
            UserGlobalStatsView {
                user_name: user,
                total_matches: score_of(state.global.total_matches, user),
                total_wins: score_of(state.global.total_wins, user),
                total_losses: score_of(state.global.total_losses, user),
                score: score_of(state.global.scores, user),
                last_play: if state.last_play_timestamps.contains_key(user) {
                    Some(state.last_play_timestamps[user])
                } else {
                    None
                },
            },
        )
    }
}

proof fn lemma_kinds_differ()
    ensures
        "season"@ != "global"@,
{
    reveal_strlit("season");
    reveal_strlit("global");
    assert("season"@[0] != "global"@[0]);
}

fn counter_of(table: &Table<String, u64>, user: &String) -> (count: u64)
    ensures
        count == score_of(table@, user@),
{
    match table.get(user) {
        Some(count) => *count,
        None => 0,
    }
}

fn archived_counter(table: &Table<(u64, String), u64>, key: &(u64, String)) -> (count: u64)
    ensures
        count == if table@.contains_key(key.deep_view()) {
            table@[key.deep_view()]
        } else {
            0
        },
{
    match table.get(key) {
        Some(count) => *count,
        None => 0,
    }
}

/// The first rows of a ranking, as far as `limit` allows.
pub fn take_top(ranking: Vec<LeaderboardEntry>, limit: Option<u64>) -> (rows: Vec<LeaderboardEntry>)
    ensures
        rows.deep_view() == ranking.deep_view().take(shown(limit, ranking.len() as nat) as int),
{
    let count: usize = match limit {
        Some(n) => if n < ranking.len() as u64 {
            n as usize
        } else {
            ranking.len()
        },
        None => ranking.len(),
    };
    let mut rows = ranking;
    rows.truncate(count);
    assert(rows.deep_view() =~= ranking.deep_view().take(count as int));
    rows
}

impl LeaderboardService {
    /// Whether the recorded end of a season is not before its start, so that
    /// the season can be reported.
    pub fn season_times_are_in_order(&self, season_number: u64) -> (ok: bool)
        ensures
            ok == season_times_in_order(self.state@, season_number),
    {
        match self.state.season_metadata.get(&season_number) {
            Some(metadata) => match metadata.end_time {
                Some(end_time) => end_time >= metadata.start_time,
                None => true,
            },
            None => true,
        }
    }

    /// The all-time leaderboard.
    pub fn global_leaderboard(&self, limit: Option<u64>) -> (rows: Vec<LeaderboardEntry>)
        ensures
            is_top_of(
                rows.deep_view(),
                board_rows(self.state.global.scores.keys(), self.state@.global),
                limit,
            ),
    {
        self.get_leaderboard_entries("global", limit)
    }

    /// The leaderboard of the current season.
    pub fn current_season_leaderboard(&self, limit: Option<u64>) -> (rows: Vec<LeaderboardEntry>)
        ensures
            is_top_of(
                rows.deep_view(),
                board_rows(self.state.season.scores.keys(), self.state@.season),
                limit,
            ),
    {
        proof {
            lemma_kinds_differ();
        }
        self.get_leaderboard_entries("season", limit)
    }

    /// The archived leaderboard of a season.
    pub fn season_leaderboard(&self, season_number: u64, limit: Option<u64>) -> (rows: Vec<
        LeaderboardEntry,
    >)
        ensures
            is_top_of(
                rows.deep_view(),
                season_rows(self.state.past.scores.keys(), self.state@.past, season_number),
                limit,
            ),
    {
        self.get_past_season_entries(season_number, limit)
    }

    /// The first eight rows of the leaderboard of the current season.
    pub fn tournament_top_8(&self) -> (rows: Vec<LeaderboardEntry>)
        ensures
            is_top_of(
                rows.deep_view(),
                board_rows(self.state.season.scores.keys(), self.state@.season),
                Some(TOP_ROWS),
            ),
    {
        proof {
            lemma_kinds_differ();
        }
        self.get_leaderboard_entries("season", Some(TOP_ROWS))
    }

    /// The current season.
    pub fn current_season_info(&self) -> (info: Option<SeasonInfo>)
        requires
            season_times_in_order(self.state@, self.state.current_season),
        ensures
            info.deep_view() == Some(
                season_report(
                    self.state@,
                    self.state.current_season,
                    players_in(self.state.past.scores.keys(), self.state.current_season),
                ),
            ),
    {
        self.get_season_info(self.state.current_season)
    }

    /// The season with the given number.
    pub fn season_info(&self, season_number: u64) -> (info: Option<SeasonInfo>)
        requires
            season_times_in_order(self.state@, season_number),
        ensures
            info.deep_view() == Some(
                season_report(
                    self.state@,
                    season_number,
                    players_in(self.state.past.scores.keys(), season_number),
                ),
            ),
    {
        self.get_season_info(season_number)
    }

    /// The all-time counters of a user; `None` for a user that has not played.
    pub fn user_global_stats(&self, user_name: String) -> (stats: Option<UserGlobalStats>)
        ensures
            stats.deep_view() == global_stats(self.state@, user_name@),
    {
        let total_matches = counter_of(&self.state.global.total_matches, &user_name);
        let total_wins = counter_of(&self.state.global.total_wins, &user_name);
        let total_losses = counter_of(&self.state.global.total_losses, &user_name);
        let score = counter_of(&self.state.global.scores, &user_name);
        let last_play = match self.state.last_play_timestamps.get(&user_name) {
            Some(at) => Some(*at),
            None => None,
        };
        if total_matches == 0 {
            return None;
        }
        Some(UserGlobalStats { user_name, total_matches, total_wins, total_losses, score, last_play })
    }

    /// The rows of one board, in table order.
    fn rows_of(board: &crate::leaderboard::state::Board) -> (rows: Vec<LeaderboardEntry>)
        ensures
            rows.deep_view() == board_rows(board.scores.keys(), board@),
    {
        let mut rows: Vec<LeaderboardEntry> = Vec::new();
        let count = board.scores.len();
        let ghost listing = board_rows(board.scores.keys(), board@);
        let mut i: usize = 0;
        while i < count
            invariant
                i <= count,
                count == board.scores.keys().len(),
                listing == board_rows(board.scores.keys(), board@),
                rows.len() == i,
                forall|j: int| 0 <= j < i ==> (#[trigger] rows[j]).deep_view() == listing[j],
            decreases count - i,
        {
            let user_name = board.scores.key_at(i);
            let score = *board.scores.value_at(i);
            let total_matches = counter_of(&board.total_matches, user_name);
            let total_wins = counter_of(&board.total_wins, user_name);
            let total_losses = counter_of(&board.total_losses, user_name);
            rows.push(
                LeaderboardEntry {
                    user_name: user_name.clone(),
                    score,
                    total_matches,
                    total_wins,
                    total_losses,
                },
            );
            i += 1;
        }
        assert(rows.deep_view() =~= listing);
        rows
    }

    /// The all-time leaderboard (`"global"`) or the leaderboard of the
    /// current season (`"season"`).
    pub fn get_leaderboard_entries(&self, leaderboard_type: &str, limit: Option<u64>) -> (rows: Vec<
        LeaderboardEntry,
    >)
        requires
            leaderboard_type@ == "global"@ || leaderboard_type@ == "season"@,
        ensures
            is_top_of(
                rows.deep_view(),
                if leaderboard_type@ == "global"@ {
                    board_rows(self.state.global.scores.keys(), self.state@.global)
                } else {
                    board_rows(self.state.season.scores.keys(), self.state@.season)
                },
                limit,
            ),
    {
        let kind = leaderboard_type.to_owned();
        let entries = if kind == "global".to_owned() {
            Self::rows_of(&self.state.global)
        } else {
            Self::rows_of(&self.state.season)
        };
        let ghost all = entries.deep_view();
        let ranking = sort_by_rank(entries);
        let ghost ranked = ranking.deep_view();
        let rows = take_top(ranking, limit);
        assert(ranked.take(shown(limit, all.len()) as int) == rows.deep_view());
        rows
    }

    /// The archived leaderboard of a season.
    pub fn get_past_season_entries(&self, season_number: u64, limit: Option<u64>) -> (rows: Vec<
        LeaderboardEntry,
    >)
        ensures
            is_top_of(
                rows.deep_view(),
                season_rows(self.state.past.scores.keys(), self.state@.past, season_number),
                limit,
            ),
    {
        let mut entries: Vec<LeaderboardEntry> = Vec::new();
        let count = self.state.past.scores.len();
        let ghost order = self.state.past.scores.keys();
        let ghost past = self.state@.past;
        let mut i: usize = 0;
        proof {
            assert(order.take(0) =~= Seq::<(u64, Seq<char>)>::empty());
            assert(entries.deep_view() =~= Seq::<LeaderboardEntryView>::empty());
        }
        while i < count
            invariant
                i <= count,
                count == order.len(),
                order == self.state.past.scores.keys(),
                past == self.state@.past,
                entries.deep_view() == season_rows(order.take(i as int), past, season_number),
            decreases count - i,
        {
            let key = self.state.past.scores.key_at(i);
            let ghost so_far = entries.deep_view();
            proof {
                assert(order.take(i as int + 1).drop_last() =~= order.take(i as int));
                assert(order.take(i as int + 1).last() == order[i as int]);
            }
            if key.0 == season_number {
                let score = archived_counter(&self.state.past.scores, key);
                let total_matches = archived_counter(&self.state.past.matches, key);
                let total_wins = archived_counter(&self.state.past.wins, key);
                let total_losses = archived_counter(&self.state.past.losses, key);
                entries.push(
                    LeaderboardEntry {
                        user_name: key.1.clone(),
                        score,
                        total_matches,
                        total_wins,
                        total_losses,
                    },
                );
                assert(entries.deep_view() =~= so_far.push(
                    archive_row(past, season_number, order[i as int].1),
                ));
            }
            i += 1;
        }
        proof {
            assert(order.take(i as int) =~= order);
        }
        let ghost all = entries.deep_view();
        let ranking = sort_by_rank(entries);
        let ghost ranked = ranking.deep_view();
        let rows = take_top(ranking, limit);
        assert(ranked.take(shown(limit, all.len()) as int) == rows.deep_view());
        rows
    }

    /// The number of users with an archived score for a season.
    fn count_players(&self, season_number: u64) -> (players: u64)
        ensures
            players == players_in(self.state.past.scores.keys(), season_number),
    {
        let count = self.state.past.scores.len();
        let ghost order = self.state.past.scores.keys();
        let mut players: u64 = 0;
        let mut i: usize = 0;
        proof {
            assert(order.take(0) =~= Seq::<(u64, Seq<char>)>::empty());
        }
        while i < count
            invariant
                i <= count,
                count == order.len(),
                order == self.state.past.scores.keys(),
                players == players_in(order.take(i as int), season_number),
                players <= i,
            decreases count - i,
        {
            proof {
                assert(order.take(i as int + 1).drop_last() =~= order.take(i as int));
                assert(order.take(i as int + 1).last() == order[i as int]);
            }
            if self.state.past.scores.key_at(i).0 == season_number {
                players = players + 1;
            }
            i += 1;
        }
        proof {
            assert(order.take(i as int) =~= order);
        }
        players
    }

    /// The season with the given number, from its metadata or, where it has
    /// none, by default.
    pub fn get_season_info(&self, season_number: u64) -> (info: Option<SeasonInfo>)
        requires
            season_times_in_order(self.state@, season_number),
        ensures
            info.deep_view() == Some(
                season_report(
                    self.state@,
                    season_number,
                    players_in(self.state.past.scores.keys(), season_number),
                ),
            ),
    {
        match self.state.season_metadata.get(&season_number) {
            Some(metadata) => {
                let total_players = if season_number == self.state.current_season {
                    self.state.season.scores.len() as u64
                } else {
                    self.count_players(season_number)
                };
                let duration_micros = match metadata.end_time {
                    Some(end_time) => Some(end_time - metadata.start_time),
                    None => None,
                };
                Some(
                    SeasonInfo {
                        number: season_number,
                        name: metadata.name.clone(),
                        start_time: metadata.start_time,
                        end_time: metadata.end_time,
                        duration_micros,
                        status: match metadata.status {
                            SeasonStatus::Active => "active".to_string(),
                            SeasonStatus::Ended => "ended".to_string(),
                        },
                        total_players,
                    },
                )
            },
            None => {
                let number_text = decimal_text(season_number);
                Some(
                    SeasonInfo {
                        number: season_number,
                        name: join("Season ", number_text.as_str()),
                        start_time: 0,
                        end_time: None,
                        duration_micros: None,
                        status: if season_number < self.state.current_season {
                            "ended".to_string()
                        } else {
                            "active".to_string()
                        },
                        total_players: 0,
                    },
                )
            },
        }
    }
}

} // verus!
