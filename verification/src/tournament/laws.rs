//! What holds of the betting and settlement rules, whatever the state.

use vstd::prelude::*;
use crate::tournament::contract::{ContractRuntime, EffectView};
use crate::tournament::dispatch::{after_message, after_operation, message_in_limits};
use crate::tournament::ledger::{
    accepts_wager, after_wager, ledger_of, pool_is_balanced, wager_in_limits,
};
use crate::tournament::pool::{
    divides_evenly, lemma_payouts_within_pool, stake_on, total_payout, total_pool,
};
use crate::tournament::registry::{
    after_bracket, after_match_metadata, after_probe, has_wagers, is_settled, sets_metadata,
};
use crate::tournament::season::{after_season_end, after_season_start, season_is_active};
use crate::tournament::settlement::{after_settlement, effects_of_settlement, settles};
use crate::tournament::state::{BetEntryView, MatchBetStatus, TournamentStateView};
use crate::tournament_shared::{TournamentMatchInputView, TournamentOperationView};

verus! {

/// A wager together with the time at which it is submitted.
pub struct TimedWager {
    pub now: u64,
    pub bet: BetEntryView,
}

/// The state after a series of wagers was submitted, first to last.
pub open spec fn after_wagers(
    state: TournamentStateView,
    wagers: Seq<TimedWager>,
) -> TournamentStateView
    decreases wagers.len(),
{
    if wagers.len() == 0 {
        state
    } else {
        after_wager(after_wagers(state, wagers.drop_last()), wagers.last().now, wagers.last().bet)
    }
}

/// Whether every wager of a series is a wager on `match_id` that is accepted
/// when it is submitted, within the limits of the machine.
pub open spec fn all_accepted(
    state: TournamentStateView,
    wagers: Seq<TimedWager>,
    match_id: Seq<char>,
) -> bool
    decreases wagers.len(),
{
    if wagers.len() == 0 {
        true
    } else {
        let earlier = after_wagers(state, wagers.drop_last());
        let wager = wagers.last();
        &&& all_accepted(state, wagers.drop_last(), match_id)
        &&& wager.bet.match_id == match_id
        &&& accepts_wager(earlier, wager.now, wager.bet)
        &&& wager_in_limits(earlier, wager.now, wager.bet)
    }
}

/// The wagers of a series, without their times.
pub open spec fn bets_of(wagers: Seq<TimedWager>) -> Seq<BetEntryView> {
    Seq::new(wagers.len(), |i: int| wagers[i].bet)
}

/// An accepted wager is appended to the ledger of its match and keeps the
/// totals of the match in balance with the ledger.
pub proof fn lemma_accepted_wager_keeps_balance(
    state: TournamentStateView,
    now: u64,
    bet: BetEntryView,
)
    requires
        pool_is_balanced(state, bet.match_id),
        accepts_wager(state, now, bet),
        wager_in_limits(state, now, bet),
    ensures
        pool_is_balanced(after_wager(state, now, bet), bet.match_id),
        ledger_of(after_wager(state, now, bet), bet.match_id) == ledger_of(state, bet.match_id).push(
            bet,
        ),
{
    let ledger = ledger_of(state, bet.match_id);
    assert(ledger.push(bet).drop_last() =~= ledger);
}

/// Whatever wager is submitted, accepted or not, on whatever match: a match
/// whose totals were in balance with its ledger is still in balance. A wager
/// that is not accepted changes no ledger, no total and no counter.
pub proof fn lemma_wager_keeps_balance(
    state: TournamentStateView,
    now: u64,
    bet: BetEntryView,
    match_id: Seq<char>,
)
    requires
        pool_is_balanced(state, match_id),
        wager_in_limits(state, now, bet),
    ensures
        pool_is_balanced(after_wager(state, now, bet), match_id),
        !accepts_wager(state, now, bet) ==> after_wager(state, now, bet) == after_probe(
            state,
            bet.match_id,
            now,
        ),
{
    if accepts_wager(state, now, bet) {
        let ledger = ledger_of(state, bet.match_id);
        assert(ledger.push(bet).drop_last() =~= ledger);
    }
}

/// For every series of accepted wagers on a match whose totals were in
/// balance with its ledger, the ledger has grown by exactly those wagers, and
/// the stakes on the two players add up to the sum of all wagers in the
/// ledger. In particular, in a pool that started empty the two totals add up
/// to the sum of the accepted wagers, after each of them.
pub proof fn lemma_pool_equals_accepted_wagers(
    state: TournamentStateView,
    wagers: Seq<TimedWager>,
    match_id: Seq<char>,
)
    requires
        pool_is_balanced(state, match_id),
        all_accepted(state, wagers, match_id),
    ensures
        pool_is_balanced(after_wagers(state, wagers), match_id),
        ledger_of(after_wagers(state, wagers), match_id) == ledger_of(state, match_id) + bets_of(
            wagers,
        ),
        ledger_of(state, match_id).len() == 0 ==> after_wagers(
            state,
            wagers,
        ).matches[match_id].total_bets_a + after_wagers(state, wagers).matches[match_id].total_bets_b
            == total_pool(bets_of(wagers)),
    decreases wagers.len(),
{
    let before = ledger_of(state, match_id);
    if wagers.len() == 0 {
        assert(before + bets_of(wagers) =~= before);
    } else {
        let earlier = after_wagers(state, wagers.drop_last());
        let wager = wagers.last();
        lemma_pool_equals_accepted_wagers(state, wagers.drop_last(), match_id);
        lemma_accepted_wager_keeps_balance(earlier, wager.now, wager.bet);
        assert((before + bets_of(wagers.drop_last())).push(wager.bet) =~= before + bets_of(wagers));
    }
    if before.len() == 0 {
        assert(before + bets_of(wagers) =~= bets_of(wagers));
    }
}

/// Setting the betting metadata of any match leaves a match whose totals
/// were in balance with its ledger in balance: totals are reset only where
/// the ledger holds no wager.
pub proof fn lemma_metadata_keeps_balance(
    state: TournamentStateView,
    now: u64,
    set_on: Seq<char>,
    duration_minutes: u64,
    betting_start_unix: Option<u64>,
    status: Option<Seq<char>>,
    match_id: Seq<char>,
)
    requires
        pool_is_balanced(state, match_id),
    ensures
        pool_is_balanced(
            after_match_metadata(state, now, set_on, duration_minutes, betting_start_unix, status),
            match_id,
        ),
{
}

/// Setting the betting metadata of a match that is not registered yet and
/// has no wagers in its ledger registers it in balance with its ledger.
pub proof fn lemma_fresh_pool_is_balanced(
    state: TournamentStateView,
    now: u64,
    match_id: Seq<char>,
    duration_minutes: u64,
    betting_start_unix: Option<u64>,
    status: Option<Seq<char>>,
)
    requires
        sets_metadata(state, match_id, status),
        !has_wagers(state, match_id),
    ensures
        pool_is_balanced(
            after_match_metadata(state, now, match_id, duration_minutes, betting_start_unix, status),
            match_id,
        ),
{
}

/// Setting the betting metadata of a match never settles it, never touches a
/// settled match, and never takes a match out of the closed status.
pub proof fn lemma_metadata_respects_lifecycle(
    state: TournamentStateView,
    now: u64,
    match_id: Seq<char>,
    duration_minutes: u64,
    betting_start_unix: Option<u64>,
    status: Option<Seq<char>>,
)
    ensures
        ({
            let after = after_match_metadata(
                state,
                now,
                match_id,
                duration_minutes,
                betting_start_unix,
                status,
            );
            &&& is_settled(after, match_id) ==> after == state
            &&& is_settled(state, match_id) ==> after == state
            &&& state.matches.contains_key(match_id) && state.matches[match_id].bet_status
                == MatchBetStatus::Closed ==> after.matches[match_id].bet_status
                == MatchBetStatus::Closed
            &&& after.bets == state.bets
        }),
{
}

/// Settling a match a second time, for the same winner, changes no counter
/// of the season and no ledger, and asks for no outside work. Where the
/// first call settled the match, the second leaves the whole state as it is.
pub proof fn lemma_settlement_is_idempotent(
    state: TournamentStateView,
    first: u64,
    second: u64,
    match_id: Seq<char>,
    winner: Seq<char>,
    signer: Option<Seq<char>>,
)
    ensures
        ({
            let once = after_settlement(state, first, match_id, winner);
            let twice = after_settlement(once, second, match_id, winner);
            &&& twice.current_total_bets_placed == once.current_total_bets_placed
            &&& twice.current_total_bets_settled == once.current_total_bets_settled
            &&& twice.current_total_payouts == once.current_total_payouts
            &&& twice.bets == once.bets
            &&& effects_of_settlement(once, match_id, winner, signer) == Seq::<EffectView>::empty()
            &&& settles(state, match_id, winner) ==> twice == once
        }),
{
}

/// A settled match stays settled: whatever winner a later call names, and
/// whenever it comes, it changes nothing and asks for no outside work.
pub proof fn lemma_settled_match_is_final(
    state: TournamentStateView,
    now: u64,
    match_id: Seq<char>,
    winner: Seq<char>,
    signer: Option<Seq<char>>,
)
    requires
        is_settled(state, match_id),
    ensures
        after_settlement(state, now, match_id, winner) == state,
        effects_of_settlement(state, match_id, winner, signer) == Seq::<EffectView>::empty(),
{
}

/// A wager submitted while its match is closed or settled changes nothing: it
/// is not in the ledger, and a later settlement is what it would have been
/// without the wager.
pub proof fn lemma_late_wager_is_dropped(
    state: TournamentStateView,
    now: u64,
    bet: BetEntryView,
    later: u64,
    winner: Seq<char>,
    signer: Option<Seq<char>>,
)
    requires
        state.matches.contains_key(bet.match_id),
        state.matches[bet.match_id].bet_status == MatchBetStatus::Closed
            || state.matches[bet.match_id].bet_status == MatchBetStatus::Settled,
    ensures
        after_wager(state, now, bet) == state,
        after_settlement(after_wager(state, now, bet), later, bet.match_id, winner)
            == after_settlement(state, later, bet.match_id, winner),
        effects_of_settlement(after_wager(state, now, bet), bet.match_id, winner, signer)
            == effects_of_settlement(state, bet.match_id, winner, signer),
{
}

/// A wager that is not accepted, for whatever reason (its match is not
/// registered, waits, is closed or settled, its deadline has passed, or it
/// names neither player), leaves every ledger, every total and every counter
/// of the season as they were; and whatever match is settled later, for
/// whatever winner, the settlement asks for the outside work and pays out
/// what it would have without that wager.
pub proof fn lemma_dropped_wager_leaves_ledger(
    state: TournamentStateView,
    now: u64,
    bet: BetEntryView,
    settled: Seq<char>,
    winner: Seq<char>,
    later: u64,
    signer: Option<Seq<char>>,
)
    requires
        !accepts_wager(state, now, bet),
    ensures
        ({
            let after = after_wager(state, now, bet);
            &&& after == after_probe(state, bet.match_id, now)
            &&& after.bets == state.bets
            &&& after.current_total_bets_placed == state.current_total_bets_placed
            &&& after.current_total_bets_settled == state.current_total_bets_settled
            &&& after.current_total_payouts == state.current_total_payouts
            &&& state.matches.contains_key(bet.match_id) ==> after.matches[bet.match_id].total_bets_a
                == state.matches[bet.match_id].total_bets_a
                && after.matches[bet.match_id].total_bets_b
                == state.matches[bet.match_id].total_bets_b
            &&& effects_of_settlement(after, settled, winner, signer) == effects_of_settlement(
                state,
                settled,
                winner,
                signer,
            )
            &&& after_settlement(after, later, settled, winner).current_total_payouts
                == after_settlement(state, later, settled, winner).current_total_payouts
            &&& after_settlement(after, later, settled, winner).bets == after_settlement(
                state,
                later,
                settled,
                winner,
            ).bets
        }),
{
}

/// A settlement that settles a match with a ledger raises the payouts of the
/// season by the sum of the payouts to the winning wagers, which is never
/// more than the pool. Where anything was wagered on the winner, it is the
/// whole pool exactly when no winning wager loses anything to rounding;
/// else it is less, and what rounding leaves over is paid to no one.
pub proof fn lemma_settlement_pays_within_pool(
    state: TournamentStateView,
    now: u64,
    match_id: Seq<char>,
    winner: Seq<char>,
)
    requires
        settles(state, match_id, winner),
        state.bets.contains_key(match_id),
        state.current_total_payouts + total_payout(state.bets[match_id], winner) <= u64::MAX,
    ensures
        ({
            let ledger = state.bets[match_id];
            let paid = after_settlement(state, now, match_id, winner).current_total_payouts
                - state.current_total_payouts;
            &&& paid == total_payout(ledger, winner)
            &&& paid <= total_pool(ledger)
            &&& stake_on(ledger, winner) > 0 ==> (paid == total_pool(ledger) <==> divides_evenly(
                ledger,
                winner,
            ))
            &&& stake_on(ledger, winner) > 0 && !divides_evenly(ledger, winner) ==> paid
                < total_pool(ledger)
        }),
{
    lemma_payouts_within_pool(state.bets[match_id], winner);
}

/// Ending a season copies the rows of the live leaderboard and the three
/// betting counters, as they are at that moment, into the archives under the
/// season's number, adds nothing else to the archives, and leaves the live
/// leaderboard as it is.
pub proof fn lemma_season_end_archives(state: TournamentStateView, now: u64)
    ensures
        ({
            let season = state.current_tournament;
            let after = after_season_end(state, now);
            &&& after.tournament_leaderboard == state.tournament_leaderboard
            &&& forall|user: Seq<char>| #[trigger]
                state.tournament_leaderboard.contains_key(user)
                    ==> after.past_tournament_leaderboards.contains_key((season, user))
                    && after.past_tournament_leaderboards[(season, user)]
                    == state.tournament_leaderboard[user]
            &&& forall|key: (u64, Seq<char>)| #[trigger]
                after.past_tournament_leaderboards.contains_key(key)
                    ==> state.past_tournament_leaderboards.contains_key(key) || (key.0 == season
                    && state.tournament_leaderboard.contains_key(key.1))
            &&& forall|key: (u64, Seq<char>)|
                state.past_tournament_leaderboards.contains_key(key) && !(key.0 == season
                    && state.tournament_leaderboard.contains_key(key.1))
                    ==> #[trigger] after.past_tournament_leaderboards.contains_key(key)
                    && after.past_tournament_leaderboards[key]
                    == state.past_tournament_leaderboards[key]
            &&& after.past_tournament_bets_placed == state.past_tournament_bets_placed.insert(
                season,
                state.current_total_bets_placed,
            )
            &&& after.past_tournament_bets_settled == state.past_tournament_bets_settled.insert(
                season,
                state.current_total_bets_settled,
            )
            &&& after.past_tournament_payouts == state.past_tournament_payouts.insert(
                season,
                state.current_total_payouts,
            )
        }),
{
}

/// Starting a new season while the current one is active archives, under
/// the number of the current season, every row of the live leaderboard and
/// the three betting counters as they are at the moment of the call, and
/// adds no other row to the archive.
pub proof fn lemma_season_start_archives(state: TournamentStateView, name: Seq<char>, now: u64)
    requires
        season_is_active(state),
    ensures
        ({
            let season = state.current_tournament;
            let after = after_season_start(state, name, now);
            &&& forall|user: Seq<char>| #[trigger]
                state.tournament_leaderboard.contains_key(user)
                    ==> after.past_tournament_leaderboards.contains_key((season, user))
                    && after.past_tournament_leaderboards[(season, user)]
                    == state.tournament_leaderboard[user]
            &&& forall|key: (u64, Seq<char>)| #[trigger]
                after.past_tournament_leaderboards.contains_key(key)
                    <==> state.past_tournament_leaderboards.contains_key(key) || (key.0 == season
                    && state.tournament_leaderboard.contains_key(key.1))
            &&& after.past_tournament_bets_placed.contains_key(season)
                && after.past_tournament_bets_placed[season] == state.current_total_bets_placed
            &&& after.past_tournament_bets_settled.contains_key(season)
                && after.past_tournament_bets_settled[season] == state.current_total_bets_settled
            &&& after.past_tournament_payouts.contains_key(season)
                && after.past_tournament_payouts[season] == state.current_total_payouts
            &&& after.past_tournament_leaderboards == after_season_end(
                state,
                now,
            ).past_tournament_leaderboards
        }),
{
}

/// Starting a new season leaves the live leaderboard empty, the betting
/// counters at zero and champion and runner-up empty, whether or not the
/// season before was ended first, and gives the new season the next number.
pub proof fn lemma_season_start_clears(state: TournamentStateView, name: Seq<char>, now: u64)
    ensures
        ({
            let after = after_season_start(state, name, now);
            &&& after.tournament_leaderboard == Map::<Seq<char>, u64>::empty()
            &&& after.current_total_bets_placed == 0
            &&& after.current_total_bets_settled == 0
            &&& after.current_total_payouts == 0
            &&& after.current_champion == Seq::<char>::empty()
            &&& after.current_runner_up == Seq::<char>::empty()
            &&& state.current_tournament < u64::MAX ==> after.current_tournament
                == state.current_tournament + 1
        }),
{
}

/// A season that was ended is not archived again by the start that follows:
/// the archives after that start are the archives as the end left them.
pub proof fn lemma_start_after_end_keeps_archives(
    state: TournamentStateView,
    ended_at: u64,
    name: Seq<char>,
    started_at: u64,
)
    ensures
        ({
            let ended = after_season_end(state, ended_at);
            let after = after_season_start(ended, name, started_at);
            &&& ended.tournament_leaderboard == state.tournament_leaderboard
            &&& after.past_tournament_leaderboards == ended.past_tournament_leaderboards
            &&& after.past_tournament_bets_placed == ended.past_tournament_bets_placed
            &&& after.past_tournament_bets_settled == ended.past_tournament_bets_settled
            &&& after.past_tournament_payouts == ended.past_tournament_payouts
            &&& after.tournament_leaderboard == Map::<Seq<char>, u64>::empty()
        }),
{
}

/// Setting bracket entries changes the betting metadata of no match that is
/// registered already, and no ledger.
pub proof fn lemma_bracket_keeps_registered_matches(
    state: TournamentStateView,
    inputs: Seq<TournamentMatchInputView>,
    match_id: Seq<char>,
)
    requires
        state.matches.contains_key(match_id),
    ensures
        after_bracket(state, inputs).matches.contains_key(match_id),
        after_bracket(state, inputs).matches[match_id] == state.matches[match_id],
        after_bracket(state, inputs).bets == state.bets,
    decreases inputs.len(),
{
    if inputs.len() > 0 {
        lemma_bracket_keeps_registered_matches(state, inputs.drop_last(), match_id);
    }
}

/// The totals of a match stay in balance with its ledger until the match is
/// settled: whatever operation is carried out within a season, a match that
/// was in balance is in balance afterwards, or settled.
pub proof fn lemma_operations_keep_balance(
    state: TournamentStateView,
    runtime: ContractRuntime,
    queue: Seq<Seq<char>>,
    operation: TournamentOperationView,
    match_id: Seq<char>,
)
    requires
        pool_is_balanced(state, match_id),
        !(operation is StartTournamentSeason),
    ensures
        pool_is_balanced(after_operation(state, runtime, queue, operation), match_id) || is_settled(
            after_operation(state, runtime, queue, operation),
            match_id,
        ),
{
    match operation {
        TournamentOperationView::SetBracket { matches } => {
            lemma_bracket_keeps_registered_matches(state, matches, match_id);
        },
        _ => {},
    }
}

/// The totals of a match stay in balance with its ledger under every
/// message: whatever arrives, a wager that is accepted or one that is not, a
/// match that was in balance is in balance afterwards.
pub proof fn lemma_messages_keep_balance(
    state: TournamentStateView,
    runtime: ContractRuntime,
    message: TournamentOperationView,
    match_id: Seq<char>,
)
    requires
        pool_is_balanced(state, match_id),
        message_in_limits(state, runtime, message),
    ensures
        pool_is_balanced(after_message(state, runtime, message), match_id),
{
    match message {
        TournamentOperationView::PlaceBet {
            bet_id,
            match_id: wagered_on,
            player,
            amount,
            bettor,
            bettor_public_key,
            user_chain,
        } => {
            let bet = BetEntryView {
                bet_id,
                match_id: wagered_on,
                bettor,
                bettor_public_key,
                predicted: player,
                amount,
                user_chain,
            };
            if runtime.message_is_bouncing == Some(true) {
                assert(after_message(state, runtime, message) == state);
            } else {
                assert(runtime.message_is_bouncing == Some(false));
                lemma_wager_keeps_balance(state, runtime.system_time_micros, bet, match_id);
                assert(after_message(state, runtime, message) == after_wager(
                    state,
                    runtime.system_time_micros,
                    bet,
                ));
            }
        },
        _ => {},
    }
}

/// Settled is final: within a season, no operation changes a settled match
/// in any way. Only the start of a new season removes it, with every other
/// match.
pub proof fn lemma_settled_match_survives_operations(
    state: TournamentStateView,
    runtime: ContractRuntime,
    queue: Seq<Seq<char>>,
    operation: TournamentOperationView,
    match_id: Seq<char>,
)
    requires
        is_settled(state, match_id),
        !(operation is StartTournamentSeason),
    ensures
        is_settled(after_operation(state, runtime, queue, operation), match_id),
        after_operation(state, runtime, queue, operation).matches[match_id]
            == state.matches[match_id],
{
    match operation {
        TournamentOperationView::SetBracket { matches } => {
            lemma_bracket_keeps_registered_matches(state, matches, match_id);
        },
        _ => {},
    }
}

/// Settled is final: no message changes a settled match in any way.
pub proof fn lemma_settled_match_survives_messages(
    state: TournamentStateView,
    runtime: ContractRuntime,
    message: TournamentOperationView,
    match_id: Seq<char>,
)
    requires
        is_settled(state, match_id),
    ensures
        is_settled(after_message(state, runtime, message), match_id),
        after_message(state, runtime, message).matches[match_id] == state.matches[match_id],
{
}

/// The archives of other seasons are read-only: no operation changes or
/// removes an archived leaderboard row or betting counter of a season other
/// than the current one.
pub proof fn lemma_archives_of_other_seasons_are_kept(
    state: TournamentStateView,
    runtime: ContractRuntime,
    queue: Seq<Seq<char>>,
    operation: TournamentOperationView,
    season: u64,
)
    requires
        season != state.current_tournament,
    ensures
        ({
            let after = after_operation(state, runtime, queue, operation);
            &&& forall|user: Seq<char>| #[trigger]
                state.past_tournament_leaderboards.contains_key((season, user))
                    ==> after.past_tournament_leaderboards.contains_key((season, user))
                    && after.past_tournament_leaderboards[(season, user)]
                    == state.past_tournament_leaderboards[(season, user)]
            &&& state.past_tournament_bets_placed.contains_key(season)
                ==> after.past_tournament_bets_placed.contains_key(season)
                && after.past_tournament_bets_placed[season]
                == state.past_tournament_bets_placed[season]
            &&& state.past_tournament_bets_settled.contains_key(season)
                ==> after.past_tournament_bets_settled.contains_key(season)
                && after.past_tournament_bets_settled[season]
                == state.past_tournament_bets_settled[season]
            &&& state.past_tournament_payouts.contains_key(season)
                ==> after.past_tournament_payouts.contains_key(season)
                && after.past_tournament_payouts[season] == state.past_tournament_payouts[season]
        }),
{
    match operation {
        TournamentOperationView::SetBracket { matches } => {
            lemma_bracket_keeps_archives(state, matches);
        },
        _ => {},
    }
}

proof fn lemma_bracket_keeps_archives(
    state: TournamentStateView,
    inputs: Seq<TournamentMatchInputView>,
)
    ensures
        after_bracket(state, inputs).past_tournament_leaderboards
            == state.past_tournament_leaderboards,
        after_bracket(state, inputs).past_tournament_bets_placed == state.past_tournament_bets_placed,
        after_bracket(state, inputs).past_tournament_bets_settled
            == state.past_tournament_bets_settled,
        after_bracket(state, inputs).past_tournament_payouts == state.past_tournament_payouts,
    decreases inputs.len(),
{
    if inputs.len() > 0 {
        lemma_bracket_keeps_archives(state, inputs.drop_last());
    }
}

} // verus!
