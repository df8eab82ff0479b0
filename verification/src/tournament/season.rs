//! Season lifecycle: starting and ending seasons, archiving the leaderboard
//! and the betting counters, and the leaderboard of the current season with
//! its champion and runner-up.

use vstd::prelude::*;
use crate::store::{lemma_prefix_set_step, score_of};
use crate::text::text_is_empty;
use crate::tournament::contract::TournamentContract;
use crate::tournament::state::{TournamentMatchView, TournamentStateView};
use crate::tournament_shared::{TournamentMetadata, TournamentMetadataView, TournamentStatus};

verus! {

/// A name, or `None` for the empty text.
pub open spec fn optional_name(text: Seq<char>) -> Option<Seq<char>> {
    if text.len() == 0 {
        None
    } else {
        Some(text)
    }
}

/// A season once it has ended at `now` with the given champion and runner-up.
pub open spec fn ended_season(
    meta: TournamentMetadataView,
    now: u64,
    champion: Seq<char>,
    runner_up: Seq<char>,
) -> TournamentMetadataView {
    TournamentMetadataView {
        status: TournamentStatus::Ended,
        end_time: Some(now),
        champion: optional_name(champion),
        runner_up: optional_name(runner_up),
        ..meta
    }
}

/// The leaderboard archive once the rows of `board` under `names` have been
/// copied into it for `season`.
pub open spec fn archive_with(
    past: Map<(u64, Seq<char>), u64>,
    season: u64,
    board: Map<Seq<char>, u64>,
    names: Set<Seq<char>>,
) -> Map<(u64, Seq<char>), u64> {
    Map::new(
        |k: (u64, Seq<char>)| past.contains_key(k) || (k.0 == season && names.contains(k.1)),
        |k: (u64, Seq<char>)|
            if k.0 == season && names.contains(k.1) {
                board[k.1]
            } else {
                past[k]
            },
    )
}

/// The state after the current season was ended at `now`: its metadata
/// stamped, every row of the live leaderboard and the three betting counters
/// copied into the archives under the season's number. The live leaderboard
/// and the counters stay as they are.
pub open spec fn after_season_end(state: TournamentStateView, now: u64) -> TournamentStateView {
    let season = state.current_tournament;
    TournamentStateView {
        tournament_metadata: if state.tournament_metadata.contains_key(season) {
            state.tournament_metadata.insert(
                season,
                ended_season(
                    state.tournament_metadata[season],
                    now,
                    state.current_champion,
                    state.current_runner_up,
                ),
            )
        } else {
            state.tournament_metadata
        },
        past_tournament_leaderboards: archive_with(
            state.past_tournament_leaderboards,
            season,
            state.tournament_leaderboard,
            state.tournament_leaderboard.dom(),
        ),
        past_tournament_bets_placed: state.past_tournament_bets_placed.insert(
            season,
            state.current_total_bets_placed,
        ),
        past_tournament_bets_settled: state.past_tournament_bets_settled.insert(
            season,
            state.current_total_bets_settled,
        ),
        past_tournament_payouts: state.past_tournament_payouts.insert(
            season,
            state.current_total_payouts,
        ),
        status: "ended"@,
        ..state
    }
}

/// The state with everything that belongs to one season removed: leaderboard,
/// bracket, results, ledgers, match registry, airdrop recipients and pending
/// claims.
pub open spec fn cleared(state: TournamentStateView) -> TournamentStateView {
    TournamentStateView {
        tournament_leaderboard: Map::empty(),
        bracket: Map::empty(),
        results: Map::empty(),
        bets: Map::empty(),
        matches: Map::empty(),
        airdrop_recipients: Set::empty(),
        pending_claims: Map::empty(),
        ..state
    }
}

/// Whether the current season is recorded as active.
pub open spec fn season_is_active(state: TournamentStateView) -> bool {
    state.tournament_metadata.contains_key(state.current_tournament)
        && state.tournament_metadata[state.current_tournament].status == TournamentStatus::Active
}

/// The state after a new season named `name` was started at `now`: the
/// current season ended first if it was still active, everything that
/// belongs to one season removed, the counters reset, and the next season
/// number recorded as active.
pub open spec fn after_season_start(
    state: TournamentStateView,
    name: Seq<char>,
    now: u64,
) -> TournamentStateView {
    let closed = if season_is_active(state) {
        after_season_end(state, now)
    } else {
        state
    };
    let next = (state.current_tournament + 1) as u64;
    TournamentStateView {
        participants: Seq::empty(),
        status: "active"@,
        current_round: Seq::empty(),
        current_champion: Seq::empty(),
        current_runner_up: Seq::empty(),
        current_total_bets_placed: 0,
        current_total_bets_settled: 0,
        current_total_payouts: 0,
        bet_counter: 0,
        tournament_metadata: closed.tournament_metadata.insert(
            next,
            TournamentMetadataView {
                name,
                start_time: now,
                end_time: None,
                status: TournamentStatus::Active,
                champion: None,
                runner_up: None,
            },
        ),
        current_tournament: next,
        ..cleared(closed)
    }
}

/// The state after the application was set up: season 0 recorded as ended,
/// every counter zero, the airdrop at 10000 tokens, and the participants
/// taken from the argument, if there is one.
pub open spec fn after_instantiate(
    state: TournamentStateView,
    argument: Option<Seq<Seq<char>>>,
) -> TournamentStateView {
    TournamentStateView {
        participants: match argument {
            Some(usernames) => usernames,
            None => state.participants,
        },
        tournament_metadata: state.tournament_metadata.insert(
            0,
            TournamentMetadataView {
                name: "Tournament 0"@,
                start_time: 0,
                end_time: Some(0),
                status: TournamentStatus::Ended,
                champion: None,
                runner_up: None,
            },
        ),
        current_tournament: 0,
        current_total_bets_placed: 0,
        current_total_bets_settled: 0,
        current_total_payouts: 0,
        bet_counter: 0,
        airdrop_amount: 10000,
        ..state
    }
}

/// The champion after `winner` reached `new_score` on `board`.
pub open spec fn champion_after(
    board: Map<Seq<char>, u64>,
    champion: Seq<char>,
    winner: Seq<char>,
    new_score: u64,
) -> Seq<char> {
    if champion.len() == 0 || new_score > score_of(board, champion) {
        winner
    } else {
        champion
    }
}

/// The runner-up after `winner` reached `new_score` on `board`.
pub open spec fn runner_up_after(
    board: Map<Seq<char>, u64>,
    champion: Seq<char>,
    runner_up: Seq<char>,
    winner: Seq<char>,
    new_score: u64,
) -> Seq<char> {
    if champion.len() == 0 {
        runner_up
    } else if new_score > score_of(board, champion) {
        champion
    } else if new_score > score_of(board, runner_up) && winner != champion {
        winner
    } else {
        runner_up
    }
}

/// The state after one more win was counted for `winner`: the winner's score
/// raised by one, champion and runner-up adjusted, and both copied into the
/// metadata of the current season.
pub open spec fn after_win(state: TournamentStateView, winner: Seq<char>) -> TournamentStateView {
    let new_score = (score_of(state.tournament_leaderboard, winner) + 1) as u64;
    let board = state.tournament_leaderboard.insert(winner, new_score);
    let champion = champion_after(board, state.current_champion, winner, new_score);
    let runner_up = runner_up_after(
        board,
        state.current_champion,
        state.current_runner_up,
        winner,
        new_score,
    );
    let season = state.current_tournament;
    TournamentStateView {
        tournament_leaderboard: board,
        current_champion: champion,
        current_runner_up: runner_up,
        tournament_metadata: if state.tournament_metadata.contains_key(season) {
            state.tournament_metadata.insert(
                season,
                TournamentMetadataView {
                    champion: optional_name(champion),
                    runner_up: optional_name(runner_up),
                    ..state.tournament_metadata[season]
                },
            )
        } else {
            state.tournament_metadata
        },
        ..state
    }
}

/// Whether a match result can be recorded: no text is empty.
pub open spec fn result_is_valid(match_id: Seq<char>, winner: Seq<char>, loser: Seq<char>) -> bool {
    match_id.len() > 0 && winner.len() > 0 && loser.len() > 0
}

/// The state after the result of a match was recorded: the result stored,
/// the bracket entry of the match completed with its winner, and the win
/// counted on the leaderboard. An invalid result changes nothing.
pub open spec fn after_result(
    state: TournamentStateView,
    match_id: Seq<char>,
    winner: Seq<char>,
    loser: Seq<char>,
) -> TournamentStateView {
    if !result_is_valid(match_id, winner, loser) {
        state
    } else {
        after_win(
            TournamentStateView {
                results: state.results.insert(match_id, (winner, loser)),
                bracket: if state.bracket.contains_key(match_id) {
                    state.bracket.insert(
                        match_id,
                        TournamentMatchView {
                            winner: Some(winner),
                            match_status: "completed"@,
                            ..state.bracket[match_id]
                        },
                    )
                } else {
                    state.bracket
                },
                ..state
            },
            winner,
        )
    }
}

/// `None` for the empty text, else the text.
pub fn optional_text(text: &String) -> (name: Option<String>)
    ensures
        name.deep_view() == optional_name(text@),
{
    if text_is_empty(text) {
        None
    } else {
        Some(text.clone())
    }
}

impl TournamentContract {
    /// Sets the application up: season 0 is recorded as ended, the counters
    /// start at zero, and the airdrop at 10000 tokens.
    pub fn instantiate(&mut self, argument: Option<Vec<String>>)
        ensures
            final(self).state@ == after_instantiate(old(self).state@, argument.deep_view()),
            final(self).runtime == old(self).runtime,
    {
        if let Some(usernames) = argument {
            self.state.participants = usernames;
        }
        let tournament_0_metadata = TournamentMetadata {
            name: "Tournament 0".to_string(),
            start_time: 0,
            end_time: Some(0),
            status: TournamentStatus::Ended,
            champion: None,
            runner_up: None,
        };
        self.state.tournament_metadata.insert(0, tournament_0_metadata);
        self.state.current_tournament = 0;
        self.state.current_total_bets_placed = 0;
        self.state.current_total_bets_settled = 0;
        self.state.current_total_payouts = 0;
        self.state.bet_counter = 0;
        self.state.airdrop_amount = 10000;
    }

    /// Ends the current season: stamps its metadata and copies the live
    /// leaderboard and the betting counters into the archives. The live
    /// leaderboard stays as it is.
    pub fn end_tournament_season(&mut self)
        ensures
            final(self).state@ == after_season_end(
                old(self).state@,
                old(self).runtime.system_time_micros,
            ),
            final(self).runtime == old(self).runtime,
    {
        let ghost before = self.state@;
        let current_tournament = self.state.current_tournament;
        let end_time = self.runtime.system_time_micros;
        let found = match self.state.tournament_metadata.get(&current_tournament) {
            Some(metadata) => Some(metadata.clone()),
            None => None,
        };
        if let Some(mut metadata) = found {
            metadata.status = TournamentStatus::Ended;
            metadata.end_time = Some(end_time);
            metadata.champion = optional_text(&self.state.current_champion);
            metadata.runner_up = optional_text(&self.state.current_runner_up);
            self.state.tournament_metadata.insert(current_tournament, metadata);
        }
        let count = self.state.tournament_leaderboard.len();
        let ghost names = self.state.tournament_leaderboard.keys();
        let ghost stamped = self.state@;
        let ghost runtime = self.runtime;
        let mut i: usize = 0;
        proof {
            assert(names.take(0).to_set() =~= Set::<Seq<char>>::empty());
            assert(self.state.past_tournament_leaderboards@ =~= archive_with(
                before.past_tournament_leaderboards,
                current_tournament,
                before.tournament_leaderboard,
                names.take(0).to_set(),
            ));
        }
        while i < count
            invariant
                i <= count,
                count == names.len(),
                names == self.state.tournament_leaderboard.keys(),
                self.runtime == runtime,
                self.state@ == (TournamentStateView {
                    past_tournament_leaderboards: archive_with(
                        before.past_tournament_leaderboards,
                        current_tournament,
                        before.tournament_leaderboard,
                        names.take(i as int).to_set(),
                    ),
                    ..stamped
                }),
                stamped.tournament_leaderboard == before.tournament_leaderboard,
            decreases count - i,
        {
            let username = self.state.tournament_leaderboard.key_at(i).clone();
            let score = *self.state.tournament_leaderboard.value_at(i);
            self.state.past_tournament_leaderboards.insert((current_tournament, username), score);
            proof {
                lemma_prefix_set_step(names, i as int);
                assert(self.state.past_tournament_leaderboards@ =~= archive_with(
                    before.past_tournament_leaderboards,
                    current_tournament,
                    before.tournament_leaderboard,
                    names.take(i as int + 1).to_set(),
                ));
            }
            i += 1;
        }
        proof {
            assert(names.take(i as int) =~= names);
            self.state.tournament_leaderboard.lemma_keys_are_domain();
        }
        self.state.past_tournament_bets_placed.insert(
            current_tournament,
            self.state.current_total_bets_placed,
        );
        self.state.past_tournament_bets_settled.insert(
            current_tournament,
            self.state.current_total_bets_settled,
        );
        self.state.past_tournament_payouts.insert(
            current_tournament,
            self.state.current_total_payouts,
        );
        self.state.status = "ended".to_string();
    }

    /// Removes everything that belongs to one season.
    pub fn clear_tournament_data(&mut self, _tournament_number: u64)
        ensures
            final(self).state@ == cleared(old(self).state@),
            final(self).runtime == old(self).runtime,
    {
        self.state.tournament_leaderboard.clear();
        self.state.bracket.clear();
        self.state.results.clear();
        self.state.bets.clear();
        self.state.matches.clear();
        self.state.airdrop_recipients.clear();
        self.state.pending_claims.clear();
        assert(self.state.airdrop_recipients@.dom() =~= Set::<Seq<char>>::empty());
    }

    /// Starts a new season named `name`, after ending the current one if it
    /// is still active.
    pub fn start_tournament_season(&mut self, name: String)
        requires
            old(self).state.current_tournament < u64::MAX,
        ensures
            final(self).state@ == after_season_start(
                old(self).state@,
                name@,
                old(self).runtime.system_time_micros,
            ),
            final(self).runtime == old(self).runtime,
    {
        let current_tournament = self.state.current_tournament;
        let active = match self.state.tournament_metadata.get(&current_tournament) {
            Some(metadata) => metadata.status == TournamentStatus::Active,
            None => false,
        };
        if active {
            self.end_tournament_season();
        }
        self.clear_tournament_data(current_tournament);
        self.state.participants = Vec::new();
        self.state.status = "active".to_string();
        self.state.current_round = String::new();
        self.state.current_champion = String::new();
        self.state.current_runner_up = String::new();
        self.state.current_total_bets_placed = 0;
        self.state.current_total_bets_settled = 0;
        self.state.current_total_payouts = 0;
        self.state.bet_counter = 0;
        let new_tournament = current_tournament + 1;
        let start_time = self.runtime.system_time_micros;
        let new_metadata = TournamentMetadata {
            name,
            start_time,
            end_time: None,
            status: TournamentStatus::Active,
            champion: None,
            runner_up: None,
        };
        self.state.tournament_metadata.insert(new_tournament, new_metadata);
        self.state.current_tournament = new_tournament;
        assert(self.state.participants.deep_view() =~= Seq::<Seq<char>>::empty());
    }

    /// Counts one more win for `winner` and adjusts champion and runner-up.
    pub fn update_tournament_leaderboard(&mut self, winner: &String)
        requires
            score_of(old(self).state@.tournament_leaderboard, winner@) < u64::MAX,
        ensures
            final(self).state@ == after_win(old(self).state@, winner@),
            final(self).runtime == old(self).runtime,
    {
        let current_score = match self.state.tournament_leaderboard.get(winner) {
            Some(score) => *score,
            None => 0,
        };
        let new_score = current_score + 1;
        self.state.tournament_leaderboard.insert(winner.clone(), new_score);
        let current_champion = self.state.current_champion.clone();
        if text_is_empty(&current_champion) {
            self.state.current_champion = winner.clone();
        } else {
            let champ_score = match self.state.tournament_leaderboard.get(&current_champion) {
                Some(score) => *score,
                None => 0,
            };
            if new_score > champ_score {
                self.state.current_runner_up = current_champion;
                self.state.current_champion = winner.clone();
            } else {
                let runner_score = match self.state.tournament_leaderboard.get(
                    &self.state.current_runner_up,
                ) {
                    Some(score) => *score,
                    None => 0,
                };
                if new_score > runner_score {
                    if *winner != current_champion {
                        self.state.current_runner_up = winner.clone();
                    }
                }
            }
        }
        let current_tournament = self.state.current_tournament;
        let found = match self.state.tournament_metadata.get(&current_tournament) {
            Some(metadata) => Some(metadata.clone()),
            None => None,
        };
        if let Some(mut metadata) = found {
            metadata.champion = optional_text(&self.state.current_champion);
            metadata.runner_up = optional_text(&self.state.current_runner_up);
            self.state.tournament_metadata.insert(current_tournament, metadata);
        }
    }

    /// Records the result of a match.
    pub fn record_match(&mut self, match_id: String, winner: String, loser: String)
        requires
            result_is_valid(match_id@, winner@, loser@) ==> score_of(
                old(self).state@.tournament_leaderboard,
                winner@,
            ) < u64::MAX,
        ensures
            final(self).state@ == after_result(old(self).state@, match_id@, winner@, loser@),
            final(self).runtime == old(self).runtime,
    {
        if text_is_empty(&match_id) || text_is_empty(&winner) || text_is_empty(&loser) {
            return ;
        }
        self.state.results.insert(match_id.clone(), (winner.clone(), loser));
        let found = match self.state.bracket.get(&match_id) {
            Some(match_data) => Some(match_data.clone()),
            None => None,
        };
        if let Some(mut match_data) = found {
            match_data.winner = Some(winner.clone());
            match_data.match_status = "completed".to_string();
            self.state.bracket.insert(match_id, match_data);
        }
        self.update_tournament_leaderboard(&winner);
    }
}

} // verus!
