//! Match registry: participants, bracket entries, betting metadata, and the
//! status probe that closes a match when its deadline has passed.

use vstd::prelude::*;
use crate::tournament::contract::TournamentContract;
use crate::tournament::ledger::pool_is_balanced;
use crate::tournament::state::{
    MatchBetStatus, MatchMetadata, MatchMetadataView, TournamentMatch, TournamentMatchView,
    TournamentStateView,
};
use crate::tournament_shared::{TournamentMatchInput, TournamentMatchInputView};
use crate::store::lemma_prefix_set_step;

verus! {

/// Microseconds in one minute.
pub const MICROS_PER_MINUTE: u64 = 60_000_000;

/// A leaderboard once every name of `names` has a fresh row with score zero.
pub open spec fn board_with_rows(
    board: Map<Seq<char>, u64>,
    names: Set<Seq<char>>,
) -> Map<Seq<char>, u64> {
    Map::new(
        |k: Seq<char>| board.contains_key(k) || names.contains(k),
        |k: Seq<char>|
            if names.contains(k) {
                0
            } else {
                board[k]
            },
    )
}

/// The state after the participants were set: the list replaced, and every
/// participant on the leaderboard with score zero.
pub open spec fn after_participants(
    state: TournamentStateView,
    participants: Seq<Seq<char>>,
) -> TournamentStateView {
    TournamentStateView {
        participants,
        tournament_leaderboard: board_with_rows(state.tournament_leaderboard, participants.to_set()),
        ..state
    }
}

/// The bracket entry that an operator's input stands for.
pub open spec fn bracket_entry(input: TournamentMatchInputView) -> TournamentMatchView {
    TournamentMatchView {
        match_id: input.match_id,
        player1: input.player1,
        player2: input.player2,
        winner: input.winner,
        round: input.round,
        match_status: input.status,
    }
}

/// The betting metadata of a match that waits for betting to open.
pub open spec fn waiting_match(
    match_id: Seq<char>,
    player1: Seq<char>,
    player2: Seq<char>,
) -> MatchMetadataView {
    MatchMetadataView {
        match_id,
        betting_deadline_unix: 0,
        betting_start_unix: None,
        bet_status: MatchBetStatus::Waiting,
        player1,
        player2,
        total_bets_a: 0,
        total_bets_b: 0,
        total_bets_count: 0,
        odds_a: 1000,
        odds_b: 1000,
    }
}

/// The state after one bracket entry was set: the entry stored under its
/// match, and the match registered as waiting if it was not registered yet.
pub open spec fn after_bracket_entry(
    state: TournamentStateView,
    input: TournamentMatchInputView,
) -> TournamentStateView {
    TournamentStateView {
        bracket: state.bracket.insert(input.match_id, bracket_entry(input)),
        matches: if state.matches.contains_key(input.match_id) {
            state.matches
        } else {
            state.matches.insert(
                input.match_id,
                waiting_match(input.match_id, input.player1, input.player2),
            )
        },
        ..state
    }
}

/// The state after a list of bracket entries was set, first to last.
pub open spec fn after_bracket(
    state: TournamentStateView,
    inputs: Seq<TournamentMatchInputView>,
) -> TournamentStateView
    decreases inputs.len(),
{
    if inputs.len() == 0 {
        state
    } else {
        after_bracket_entry(after_bracket(state, inputs.drop_last()), inputs.last())
    }
}

/// The status that an operator's text stands for; waiting where the text is
/// missing or not the name of a status.
pub open spec fn status_of_text(status: Option<Seq<char>>) -> MatchBetStatus {
    match status {
        Some(text) => {
            if text == "Waiting"@ {
                MatchBetStatus::Waiting
            } else if text == "Closed"@ {
                MatchBetStatus::Closed
            } else if text == "Settled"@ {
                MatchBetStatus::Settled
            } else if text == "Open"@ {
                MatchBetStatus::Open
            } else {
                MatchBetStatus::Waiting
            }
        },
        None => MatchBetStatus::Waiting,
    }
}

/// The first player of a match: from its metadata, else from the bracket,
/// else a placeholder.
pub open spec fn first_player_of(state: TournamentStateView, match_id: Seq<char>) -> Seq<char> {
    if state.matches.contains_key(match_id) {
        state.matches[match_id].player1
    } else if state.bracket.contains_key(match_id) {
        state.bracket[match_id].player1
    } else {
        "Unknown"@
    }
}

/// The second player of a match: from its metadata, else from the bracket,
/// else a placeholder.
pub open spec fn second_player_of(state: TournamentStateView, match_id: Seq<char>) -> Seq<char> {
    if state.matches.contains_key(match_id) {
        state.matches[match_id].player2
    } else if state.bracket.contains_key(match_id) {
        state.bracket[match_id].player2
    } else {
        "Unknown"@
    }
}

/// Whether the match is registered as settled.
pub open spec fn is_settled(state: TournamentStateView, match_id: Seq<char>) -> bool {
    state.matches.contains_key(match_id) && state.matches[match_id].bet_status
        == MatchBetStatus::Settled
}

/// When betting closes if it lasts `duration_minutes` from `now`, in microseconds.
pub open spec fn betting_deadline(now: u64, duration_minutes: u64) -> nat {
    (now + duration_minutes * MICROS_PER_MINUTE) as nat
}

/// The status of a match in the registry; `None` where it is not registered.
pub open spec fn status_of(state: TournamentStateView, match_id: Seq<char>) -> Option<
    MatchBetStatus,
> {
    if state.matches.contains_key(match_id) {
        Some(state.matches[match_id].bet_status)
    } else {
        None
    }
}

/// Whether an operator may give a match that stands at `current` the status
/// `requested`. A match that waits, or is not registered yet, may stay
/// waiting or be opened; an open match may stay open or be closed; a closed
/// match stays closed. No match is set to settled, and a settled match is
/// never touched: only settlement settles.
pub open spec fn may_become(current: Option<MatchBetStatus>, requested: MatchBetStatus) -> bool {
    match requested {
        MatchBetStatus::Waiting => current is None || current == Some(MatchBetStatus::Waiting),
        MatchBetStatus::Open => current is None || current == Some(MatchBetStatus::Waiting)
            || current == Some(MatchBetStatus::Open),
        MatchBetStatus::Closed => current == Some(MatchBetStatus::Open) || current == Some(
            MatchBetStatus::Closed,
        ),
        MatchBetStatus::Settled => false,
    }
}

/// Whether setting the betting metadata of a match with the given status
/// text takes effect: the text asks for a status that the match may take.
pub open spec fn sets_metadata(
    state: TournamentStateView,
    match_id: Seq<char>,
    status: Option<Seq<char>>,
) -> bool {
    may_become(status_of(state, match_id), status_of_text(status))
}

/// Whether the ledger of a match holds a wager.
pub open spec fn has_wagers(state: TournamentStateView, match_id: Seq<char>) -> bool {
    state.bets.contains_key(match_id) && state.bets[match_id].len() > 0
}

/// The totals, odds and count that a match has once its betting metadata is
/// set: those it has, while its ledger holds wagers; else those of an empty
/// pool.
pub open spec fn pool_after_metadata(
    state: TournamentStateView,
    match_id: Seq<char>,
) -> MatchMetadataView {
    if state.matches.contains_key(match_id) && has_wagers(state, match_id) {
        state.matches[match_id]
    } else {
        waiting_match(match_id, first_player_of(state, match_id), second_player_of(state, match_id))
    }
}

/// The state after the betting metadata of a match was set at `now`: the
/// deadline `duration_minutes` from `now`, the start, and the status that
/// the text asks for. The players stay, and so do totals, odds and count
/// while the ledger of the match holds wagers; without wagers the pool is
/// fresh, with even odds. Where the match may not take the status asked
/// for, nothing changes.
pub open spec fn after_match_metadata(
    state: TournamentStateView,
    now: u64,
    match_id: Seq<char>,
    duration_minutes: u64,
    betting_start_unix: Option<u64>,
    status: Option<Seq<char>>,
) -> TournamentStateView {
    if !sets_metadata(state, match_id, status) {
        state
    } else {
        TournamentStateView {
            matches: state.matches.insert(
                match_id,
                MatchMetadataView {
                    match_id,
                    betting_deadline_unix: betting_deadline(now, duration_minutes) as u64,
                    betting_start_unix: match betting_start_unix {
                        Some(start) => Some(start),
                        None => Some(now),
                    },
                    bet_status: status_of_text(status),
                    player1: first_player_of(state, match_id),
                    player2: second_player_of(state, match_id),
                    ..pool_after_metadata(state, match_id)
                },
            ),
            ..state
        }
    }
}

/// Whether a text is the given literal.
fn text_is(text: &String, literal: &str) -> (same: bool)
    ensures
        same == (text@ == literal@),
{
    let other = String::from_str(literal);
    *text == other
}

/// The status that an operator's text stands for.
pub fn parse_bet_status(status: &Option<String>) -> (parsed: MatchBetStatus)
    ensures
        parsed == status_of_text(status.deep_view()),
{
    match status {
        Some(text) => {
            if text_is(text, "Waiting") {
                MatchBetStatus::Waiting
            } else if text_is(text, "Closed") {
                MatchBetStatus::Closed
            } else if text_is(text, "Settled") {
                MatchBetStatus::Settled
            } else if text_is(text, "Open") {
                MatchBetStatus::Open
            } else {
                MatchBetStatus::Waiting
            }
        },
        None => MatchBetStatus::Waiting,
    }
}

/// Whether the betting deadline of an open match has passed at `now`.
pub open spec fn deadline_passed(meta: MatchMetadataView, now: u64) -> bool {
    meta.bet_status == MatchBetStatus::Open && now >= meta.betting_deadline_unix
}

/// A match as the status probe leaves it: closed if it was open and its
/// deadline has passed, else as it was.
pub open spec fn probed(meta: MatchMetadataView, now: u64) -> MatchMetadataView {
    if deadline_passed(meta, now) {
        MatchMetadataView { bet_status: MatchBetStatus::Closed, ..meta }
    } else {
        meta
    }
}

/// The state after the status probe of one match.
pub open spec fn after_probe(
    state: TournamentStateView,
    match_id: Seq<char>,
    now: u64,
) -> TournamentStateView {
    if state.matches.contains_key(match_id) && deadline_passed(state.matches[match_id], now) {
        TournamentStateView {
            matches: state.matches.insert(match_id, probed(state.matches[match_id], now)),
            ..state
        }
    } else {
        state
    }
}

impl TournamentContract {
    /// The status probe: closes the match if it is open and its betting
    /// deadline has passed. Returns whether it closed the match.
    pub fn update_match_status(&mut self, match_id: &String) -> (closed: bool)
        ensures
            final(self).state@ == after_probe(
                old(self).state@,
                match_id@,
                old(self).runtime.system_time_micros,
            ),
            final(self).runtime == old(self).runtime,
            closed == (old(self).state@.matches.contains_key(match_id@) && deadline_passed(
                old(self).state@.matches[match_id@],
                old(self).runtime.system_time_micros,
            )),
    {
        let now = self.runtime.system_time_micros;
        let found = match self.state.matches.get(match_id) {
            Some(metadata) => Some(metadata.clone()),
            None => None,
        };
        if let Some(mut metadata) = found {
            if metadata.bet_status == MatchBetStatus::Settled {
                return false;
            }
            if now >= metadata.betting_deadline_unix && metadata.bet_status == MatchBetStatus::Open {
                metadata.bet_status = MatchBetStatus::Closed;
                self.state.matches.insert(match_id.clone(), metadata);
                return true;
            }
        }
        false
    }

    /// Sets the participants of the season and gives each a row on the
    /// leaderboard, with score zero.
    pub fn set_participants(&mut self, participants: Vec<String>)
        ensures
            final(self).state@ == after_participants(old(self).state@, participants.deep_view()),
            final(self).runtime == old(self).runtime,
    {
        let ghost before = self.state@;
        let ghost runtime = self.runtime;
        let ghost names = participants.deep_view();
        let mut i: usize = 0;
        proof {
            assert(names.take(0).to_set() =~= Set::<Seq<char>>::empty());
            assert(self.state@.tournament_leaderboard =~= board_with_rows(
                before.tournament_leaderboard,
                names.take(0).to_set(),
            ));
        }
        while i < participants.len()
            invariant
                i <= participants.len(),
                names == participants.deep_view(),
                self.runtime == runtime,
                self.state@ == (TournamentStateView {
                    tournament_leaderboard: board_with_rows(
                        before.tournament_leaderboard,
                        names.take(i as int).to_set(),
                    ),
                    ..before
                }),
            decreases participants.len() - i,
        {
            self.state.tournament_leaderboard.insert(participants[i].clone(), 0);
            proof {
                lemma_prefix_set_step(names, i as int);
                assert(self.state.tournament_leaderboard@ =~= board_with_rows(
                    before.tournament_leaderboard,
                    names.take(i as int + 1).to_set(),
                ));
            }
            i += 1;
        }
        proof {
            assert(names.take(i as int) =~= names);
        }
        self.state.participants = participants;
    }

    /// Sets bracket entries, first to last. A match seen for the first time
    /// is registered for betting, waiting to be opened.
    pub fn set_bracket(&mut self, matches: Vec<TournamentMatchInput>)
        ensures
            final(self).state@ == after_bracket(old(self).state@, matches.deep_view()),
            final(self).runtime == old(self).runtime,
    {
        let ghost before = self.state@;
        let ghost runtime = self.runtime;
        let ghost inputs = matches.deep_view();
        let mut i: usize = 0;
        proof {
            assert(inputs.take(0) =~= Seq::<TournamentMatchInputView>::empty());
        }
        while i < matches.len()
            invariant
                i <= matches.len(),
                inputs == matches.deep_view(),
                self.runtime == runtime,
                self.state@ == after_bracket(before, inputs.take(i as int)),
            decreases matches.len() - i,
        {
            let input_match = &matches[i];
            let ghost so_far = self.state@;
            let match_id = input_match.match_id.clone();
            let storage_match = TournamentMatch {
                match_id: match_id.clone(),
                player1: input_match.player1.clone(),
                player2: input_match.player2.clone(),
                winner: crate::tournament_shared::clone_optional_text(&input_match.winner),
                round: input_match.round.clone(),
                match_status: input_match.status.clone(),
            };
            self.state.bracket.insert(match_id.clone(), storage_match);
            if !self.state.matches.contains_key(&match_id) {
                let match_metadata = MatchMetadata {
                    match_id: match_id.clone(),
                    betting_deadline_unix: 0,
                    betting_start_unix: None,
                    bet_status: MatchBetStatus::Waiting,
                    player1: input_match.player1.clone(),
                    player2: input_match.player2.clone(),
                    total_bets_a: 0,
                    total_bets_b: 0,
                    total_bets_count: 0,
                    odds_a: 1000,
                    odds_b: 1000,
                };
                self.state.matches.insert(match_id, match_metadata);
            }
            proof {
                assert(inputs.take(i as int + 1).drop_last() =~= inputs.take(i as int));
                assert(inputs.take(i as int + 1).last() == inputs[i as int]);
                assert(self.state@ == after_bracket_entry(so_far, inputs[i as int]));
            }
            i += 1;
        }
        proof {
            assert(inputs.take(i as int) =~= inputs);
        }
    }

    /// Sets the betting metadata of a match: deadline, start and status. The
    /// players are kept from the registry, else taken from the bracket. The
    /// totals, odds and count of the match stay while its ledger holds
    /// wagers. Nothing changes where the match may not take the status asked
    /// for: a settled match is not touched, a closed one not reopened, and no
    /// match is set to settled.
    pub fn set_match_metadata(
        &mut self,
        match_id: String,
        duration_minutes: u64,
        betting_start_unix: Option<u64>,
        status: Option<String>,
    )
        requires
            sets_metadata(old(self).state@, match_id@, status.deep_view()) ==> betting_deadline(
                old(self).runtime.system_time_micros,
                duration_minutes,
            ) <= u64::MAX,
        ensures
            final(self).state@ == after_match_metadata(
                old(self).state@,
                old(self).runtime.system_time_micros,
                match_id@,
                duration_minutes,
                betting_start_unix,
                status.deep_view(),
            ),
            pool_is_balanced(old(self).state@, match_id@) ==> pool_is_balanced(
                final(self).state@,
                match_id@,
            ),
            final(self).runtime == old(self).runtime,
    {
        let bet_status = parse_bet_status(&status);
        let existing = match self.state.matches.get(&match_id) {
            Some(metadata) => Some(metadata.clone()),
            None => None,
        };
        let current = match &existing {
            Some(metadata) => Some(metadata.bet_status),
            None => None,
        };
        if !status_may_become(current, bet_status) {
            return ;
        }
        let holds_wagers = match self.state.bets.get(&match_id) {
            Some(ledger) => ledger.len() > 0,
            None => false,
        };
        let now_micros = self.runtime.system_time_micros;
        let mut metadata = match existing {
            Some(metadata) => {
                if holds_wagers {
                    metadata
                } else {
                    fresh_pool(match_id.clone(), metadata.player1, metadata.player2)
                }
            },
            None => match self.state.bracket.get(&match_id) {
                Some(match_data) => fresh_pool(
                    match_id.clone(),
                    match_data.player1.clone(),
                    match_data.player2.clone(),
                ),
                None => fresh_pool(match_id.clone(), "Unknown".to_string(), "Unknown".to_string()),
            },
        };
        metadata.match_id = match_id.clone();
        metadata.betting_deadline_unix = now_micros + duration_minutes * MICROS_PER_MINUTE;
        metadata.betting_start_unix = match betting_start_unix {
            Some(start) => Some(start),
            None => Some(now_micros),
        };
        metadata.bet_status = bet_status;
        self.state.matches.insert(match_id, metadata);
    }

    /// Whether setting the betting metadata of a match with the given status
    /// text would take effect.
    pub fn would_set_metadata(&self, match_id: &String, status: &Option<String>) -> (sets: bool)
        ensures
            sets == sets_metadata(self.state@, match_id@, status.deep_view()),
    {
        let current = match self.state.matches.get(match_id) {
            Some(metadata) => Some(metadata.bet_status),
            None => None,
        };
        status_may_become(current, parse_bet_status(status))
    }
}

/// The betting metadata of a match without wagers, waiting to be opened.
pub fn fresh_pool(match_id: String, player1: String, player2: String) -> (metadata: MatchMetadata)
    ensures
        metadata@ == waiting_match(match_id@, player1@, player2@),
{
    MatchMetadata {
        match_id,
        betting_deadline_unix: 0,
        betting_start_unix: None,
        bet_status: MatchBetStatus::Waiting,
        player1,
        player2,
        total_bets_a: 0,
        total_bets_b: 0,
        total_bets_count: 0,
        odds_a: 1000,
        odds_b: 1000,
    }
}

/// Whether an operator may give a match that stands at `current` the status
/// `requested`.
pub fn status_may_become(current: Option<MatchBetStatus>, requested: MatchBetStatus) -> (may: bool)
    ensures
        may == may_become(current, requested),
{
    match requested {
        MatchBetStatus::Waiting => match current {
            None => true,
            Some(status) => status == MatchBetStatus::Waiting,
        },
        MatchBetStatus::Open => match current {
            None => true,
            Some(status) => status == MatchBetStatus::Waiting || status == MatchBetStatus::Open,
        },
        MatchBetStatus::Closed => match current {
            None => false,
            Some(status) => status == MatchBetStatus::Open || status == MatchBetStatus::Closed,
        },
        MatchBetStatus::Settled => false,
    }
}

} // verus!
