//! Settlement engine: the pari-mutuel split of a pool, the payouts and
//! notices that follow, and the closing of the books of a match.

use vstd::prelude::*;
use crate::text::{account_of_text, account_owner, text_is_empty};
use crate::tournament::contract::{
    ATTOS_PER_TOKEN,
    Effect,
    EffectView,
    no_effects,
    TournamentContract,
};
use crate::tournament::pool::{
    lemma_prefix_sums, lemma_share_within_pool, lemma_sums_step, payout_of, payout_share,
    payout_total, stake_on, stake_on_player, total_payout, total_pool, total_stake,
};
use crate::tournament::registry::after_probe;
use crate::tournament::state::{
    BetEntry, BetEntryView, MatchBetStatus, MatchMetadataView, TournamentStateView,
};
use crate::tournament_shared::{TournamentOperation, TournamentOperationView};

verus! {

/// The text of the signer; empty where the execution has none.
pub open spec fn signer_text(signer: Option<Seq<char>>) -> Seq<char> {
    match signer {
        Some(text) => text,
        None => Seq::empty(),
    }
}

/// The transfer that pays `amount` whole tokens from `signer` to the account
/// written as `public_key` on `user_chain`; none where `public_key` is not
/// written as an account.
pub open spec fn payout_transfer(
    signer: Seq<char>,
    public_key: Seq<char>,
    user_chain: Seq<char>,
    amount: u64,
) -> Option<EffectView> {
    match account_of_text(public_key) {
        Some(owner) => Some(
            EffectView::Transfer {
                owner: signer,
                amount_attos: (amount * ATTOS_PER_TOKEN) as u128,
                target_chain: user_chain,
                target_owner: owner,
            },
        ),
        None => None,
    }
}

/// The message that tells the chain a wager came from how the wager ended.
pub open spec fn payout_notice(
    bet: BetEntryView,
    match_id: Seq<char>,
    amount: u64,
    is_win: bool,
    season: u64,
) -> EffectView {
    EffectView::SendMessage {
        destination: bet.user_chain,
        message: TournamentOperationView::Payout {
            bet_id: bet.bet_id,
            match_id,
            amount,
            user_public_key: bet.bettor_public_key,
            user_chain: bet.user_chain,
            is_win,
            tournament_season: season,
        },
    }
}

/// What is due to one winning wager: the transfer of its payout, where its
/// account can be read, and then the notice of the win.
pub open spec fn winner_dues(
    bet: BetEntryView,
    match_id: Seq<char>,
    pool: nat,
    winning_stake: nat,
    season: u64,
    signer: Seq<char>,
) -> Seq<EffectView> {
    let payout = payout_of(bet.amount as nat, pool, winning_stake) as u64;
    let notice = payout_notice(bet, match_id, payout, true, season);
    match payout_transfer(signer, bet.bettor_public_key, bet.user_chain, payout) {
        Some(transfer) => seq![transfer, notice],
        None => seq![notice],
    }
}

/// What is due to the winning wagers of a ledger, wager by wager in ledger order.
pub open spec fn winner_effects(
    ledger: Seq<BetEntryView>,
    match_id: Seq<char>,
    winner: Seq<char>,
    pool: nat,
    winning_stake: nat,
    season: u64,
    signer: Seq<char>,
) -> Seq<EffectView>
    decreases ledger.len(),
{
    if ledger.len() == 0 {
        Seq::empty()
    } else {
        let before = winner_effects(
            ledger.drop_last(),
            match_id,
            winner,
            pool,
            winning_stake,
            season,
            signer,
        );
        if ledger.last().predicted == winner {
            before + winner_dues(ledger.last(), match_id, pool, winning_stake, season, signer)
        } else {
            before
        }
    }
}

/// The notices of loss to the losing wagers of a ledger, in ledger order.
pub open spec fn loser_effects(
    ledger: Seq<BetEntryView>,
    match_id: Seq<char>,
    winner: Seq<char>,
    season: u64,
) -> Seq<EffectView>
    decreases ledger.len(),
{
    if ledger.len() == 0 {
        Seq::empty()
    } else {
        let before = loser_effects(ledger.drop_last(), match_id, winner, season);
        if ledger.last().predicted != winner {
            before.push(payout_notice(ledger.last(), match_id, 0, false, season))
        } else {
            before
        }
    }
}

/// The outside work of settling a ledger for `winner`: first what is due to
/// the winning wagers, if anything was wagered on the winner, then the
/// notices to the losing wagers.
pub open spec fn settlement_effects(
    ledger: Seq<BetEntryView>,
    match_id: Seq<char>,
    winner: Seq<char>,
    season: u64,
    signer: Seq<char>,
) -> Seq<EffectView> {
    let pool = total_pool(ledger);
    let winning_stake = stake_on(ledger, winner);
    let won = if winning_stake > 0 {
        winner_effects(ledger, match_id, winner, pool, winning_stake, season, signer)
    } else {
        Seq::empty()
    };
    won + loser_effects(ledger, match_id, winner, season)
}

/// Whether a call to settle the match for `winner` settles it: the match is
/// registered and not settled yet, and neither text is empty.
pub open spec fn settles(
    state: TournamentStateView,
    match_id: Seq<char>,
    winner: Seq<char>,
) -> bool {
    &&& state.matches.contains_key(match_id)
    &&& state.matches[match_id].bet_status != MatchBetStatus::Settled
    &&& match_id.len() > 0
    &&& winner.len() > 0
}

/// The state after a call to settle the match for `winner` at `now`.
///
/// A call that settles marks the match settled and freezes its number of
/// wagers at the length of its ledger, which is zero for a match without a
/// ledger. Where the match has a ledger, the call also empties it and adds
/// the wagers and the payouts to the counters of the season. Any other call
/// leaves the state as the status probe left it.
pub open spec fn after_settlement(
    state: TournamentStateView,
    now: u64,
    match_id: Seq<char>,
    winner: Seq<char>,
) -> TournamentStateView {
    let probed_state = after_probe(state, match_id, now);
    if !settles(state, match_id, winner) {
        probed_state
    } else if state.bets.contains_key(match_id) {
        let ledger = state.bets[match_id];
        TournamentStateView {
            matches: state.matches.insert(
                match_id,
                MatchMetadataView {
                    bet_status: MatchBetStatus::Settled,
                    total_bets_count: ledger.len() as u64,
                    ..state.matches[match_id]
                },
            ),
            bets: state.bets.insert(match_id, Seq::empty()),
            current_total_bets_settled: (state.current_total_bets_settled + ledger.len()) as u64,
            current_total_payouts: (state.current_total_payouts + total_payout(ledger, winner)) as u64,
            ..state
        }
    } else {
        TournamentStateView {
            matches: state.matches.insert(
                match_id,
                MatchMetadataView {
                    bet_status: MatchBetStatus::Settled,
                    total_bets_count: 0,
                    ..state.matches[match_id]
                },
            ),
            ..state
        }
    }
}

/// The outside work of a call to settle the match for `winner`.
pub open spec fn effects_of_settlement(
    state: TournamentStateView,
    match_id: Seq<char>,
    winner: Seq<char>,
    signer: Option<Seq<char>>,
) -> Seq<EffectView> {
    if settles(state, match_id, winner) && state.bets.contains_key(match_id) {
        settlement_effects(
            state.bets[match_id],
            match_id,
            winner,
            state.current_tournament,
            signer_text(signer),
        )
    } else {
        Seq::empty()
    }
}

/// Whether a ledger can be settled for `winner` within the limits of the
/// machine: the pool fits a stake, and a signer is there to pay the winners.
pub open spec fn ledger_in_limits(
    ledger: Seq<BetEntryView>,
    winner: Seq<char>,
    signer: Option<Seq<char>>,
) -> bool {
    &&& total_pool(ledger) <= u64::MAX
    &&& stake_on(ledger, winner) > 0 ==> signer is Some
}

/// Whether a call to settle the match for `winner` stays within the limits of
/// the machine.
pub open spec fn settlement_in_limits(
    state: TournamentStateView,
    match_id: Seq<char>,
    winner: Seq<char>,
    signer: Option<Seq<char>>,
) -> bool {
    settles(state, match_id, winner) && state.bets.contains_key(match_id) ==> {
        let ledger = state.bets[match_id];
        &&& ledger_in_limits(ledger, winner, signer)
        &&& state.current_total_bets_settled + ledger.len() <= u64::MAX
        &&& state.current_total_payouts + total_payout(ledger, winner) <= u64::MAX
    }
}

proof fn lemma_winner_effects_step(
    ledger: Seq<BetEntryView>,
    match_id: Seq<char>,
    winner: Seq<char>,
    pool: nat,
    winning_stake: nat,
    season: u64,
    signer: Seq<char>,
    n: int,
)
    requires
        0 <= n < ledger.len(),
    ensures
        winner_effects(ledger.take(n + 1), match_id, winner, pool, winning_stake, season, signer)
            == winner_effects(ledger.take(n), match_id, winner, pool, winning_stake, season, signer)
            + (if ledger[n].predicted == winner {
            winner_dues(ledger[n], match_id, pool, winning_stake, season, signer)
        } else {
            Seq::empty()
        }),
{
    assert(ledger.take(n + 1).drop_last() =~= ledger.take(n));
    let before = winner_effects(ledger.take(n), match_id, winner, pool, winning_stake, season, signer);
    assert(before + Seq::<EffectView>::empty() =~= before);
}

proof fn lemma_loser_effects_step(
    ledger: Seq<BetEntryView>,
    match_id: Seq<char>,
    winner: Seq<char>,
    season: u64,
    n: int,
)
    requires
        0 <= n < ledger.len(),
    ensures
        loser_effects(ledger.take(n + 1), match_id, winner, season) == if ledger[n].predicted
            != winner {
            loser_effects(ledger.take(n), match_id, winner, season).push(
                payout_notice(ledger[n], match_id, 0, false, season),
            )
        } else {
            loser_effects(ledger.take(n), match_id, winner, season)
        },
{
    assert(ledger.take(n + 1).drop_last() =~= ledger.take(n));
}

impl TournamentContract {
    /// The transfer that pays `amount` whole tokens from the signer to the
    /// account written as `user_public_key` on `user_chain`. There is none
    /// where that text is not written as an account.
    pub fn send_payout_via_fungible(
        &self,
        user_public_key: &String,
        user_chain: &String,
        amount: u64,
    ) -> (transfer: Option<Effect>)
        requires
            self.runtime.authenticated_signer is Some,
        ensures
            transfer.deep_view() == payout_transfer(
                self.runtime.authenticated_signer.deep_view().unwrap(),
                user_public_key@,
                user_chain@,
                amount,
            ),
    {
        let current_signer = match &self.runtime.authenticated_signer {
            Some(signer) => signer.clone(),
            None => String::new(),
        };
        let user_account_owner = match account_owner(user_public_key) {
            Some(owner) => owner,
            None => {
                return None;
            },
        };
        assert(amount * ATTOS_PER_TOKEN <= u128::MAX) by (nonlinear_arith)
            requires
                amount <= u64::MAX,
                ATTOS_PER_TOKEN == 1_000_000_000_000_000_000,
        ;
        let amount_attos: u128 = (amount as u128) * ATTOS_PER_TOKEN;
        Some(
            Effect::Transfer {
                owner: current_signer,
                amount_attos,
                target_chain: user_chain.clone(),
                target_owner: user_account_owner,
            },
        )
    }

    /// The pari-mutuel split of one ledger: what settling it for `winner`
    /// pays out in all, and the outside work that follows, in order.
    pub fn split_pool(
        &self,
        entries: &Vec<BetEntry>,
        match_id: &String,
        winner: &String,
        season: u64,
    ) -> (split: (u64, Vec<Effect>))
        requires
            ledger_in_limits(entries.deep_view(), winner@, self.runtime.authenticated_signer.deep_view()),
        ensures
            split.0 == total_payout(entries.deep_view(), winner@),
            split.1.deep_view() == settlement_effects(
                entries.deep_view(),
                match_id@,
                winner@,
                season,
                signer_text(self.runtime.authenticated_signer.deep_view()),
            ),
    {
        let ghost ledger = entries.deep_view();
        let ghost signer = signer_text(self.runtime.authenticated_signer.deep_view());
        let pool_total = total_stake(entries);
        let total_winner = stake_on_player(entries, winner);
        let paid_total = payout_total(entries, winner);
        let ghost pool = pool_total as nat;
        let ghost stake = total_winner as nat;
        let mut effects: Vec<Effect> = Vec::new();
        proof {
            assert(effects.deep_view() =~= Seq::<EffectView>::empty());
            assert(ledger.take(0) =~= Seq::<BetEntryView>::empty());
        }
        if total_winner > 0 {
            let mut i: usize = 0;
            while i < entries.len()
                invariant
                    i <= entries.len(),
                    ledger == entries.deep_view(),
                    pool == total_pool(ledger),
                    pool == pool_total,
                    stake == stake_on(ledger, winner@),
                    stake == total_winner,
                    stake > 0,
                    pool <= u64::MAX,
                    self.runtime.authenticated_signer is Some,
                    signer == self.runtime.authenticated_signer.deep_view().unwrap(),
                    effects.deep_view() == winner_effects(
                        ledger.take(i as int),
                        match_id@,
                        winner@,
                        pool,
                        stake,
                        season,
                        signer,
                    ),
                decreases entries.len() - i,
            {
                let bet = &entries[i];
                proof {
                    lemma_winner_effects_step(
                        ledger,
                        match_id@,
                        winner@,
                        pool,
                        stake,
                        season,
                        signer,
                        i as int,
                    );
                    lemma_sums_step(ledger, winner@, i as int);
                    lemma_prefix_sums(ledger, winner@, i as int + 1);
                    assert(ledger[i as int] == bet@);
                }
                if bet.predicted == *winner {
                    proof {
                        lemma_share_within_pool(bet.amount as nat, pool, stake);
                    }
                    let payout_amount = payout_share(bet.amount, pool_total, total_winner);
                    let ghost so_far = effects.deep_view();
                    let transfer = self.send_payout_via_fungible(
                        &bet.bettor_public_key,
                        &bet.user_chain,
                        payout_amount,
                    );
                    match transfer {
                        Some(t) => {
                            effects.push(t);
                        },
                        None => {},
                    }
                    let notice = Effect::SendMessage {
                        destination: bet.user_chain.clone(),
                        message: TournamentOperation::Payout {
                            bet_id: bet.bet_id.clone(),
                            match_id: match_id.clone(),
                            amount: payout_amount,
                            user_public_key: bet.bettor_public_key.clone(),
                            user_chain: bet.user_chain.clone(),
                            is_win: true,
                            tournament_season: season,
                        },
                    };
                    effects.push(notice);
                    proof {
                        let dues = winner_dues(bet@, match_id@, pool, stake, season, signer);
                        assert(effects.deep_view() =~= so_far + dues);
                    }
                } else {
                    proof {
                        assert(effects.deep_view() + Seq::<EffectView>::empty()
                            =~= effects.deep_view());
                    }
                }
                i += 1;
            }
            proof {
                assert(ledger.take(i as int) =~= ledger);
            }
        }
        let ghost won = effects.deep_view();
        proof {
            assert(ledger.take(0) =~= Seq::<BetEntryView>::empty());
            assert(won + Seq::<EffectView>::empty() =~= won);
        }
        let mut j: usize = 0;
        while j < entries.len()
            invariant
                j <= entries.len(),
                ledger == entries.deep_view(),
                effects.deep_view() == won + loser_effects(
                    ledger.take(j as int),
                    match_id@,
                    winner@,
                    season,
                ),
            decreases entries.len() - j,
        {
            let bet = &entries[j];
            proof {
                lemma_loser_effects_step(ledger, match_id@, winner@, season, j as int);
                assert(ledger[j as int] == bet@);
            }
            if bet.predicted != *winner {
                let ghost so_far = effects.deep_view();
                let notice = Effect::SendMessage {
                    destination: bet.user_chain.clone(),
                    message: TournamentOperation::Payout {
                        bet_id: bet.bet_id.clone(),
                        match_id: match_id.clone(),
                        amount: 0,
                        user_public_key: bet.bettor_public_key.clone(),
                        user_chain: bet.user_chain.clone(),
                        is_win: false,
                        tournament_season: season,
                    },
                };
                effects.push(notice);
                proof {
                    let note = payout_notice(bet@, match_id@, 0, false, season);
                    assert(effects.deep_view() =~= so_far.push(note));
                    assert(so_far.push(note) =~= won + loser_effects(
                        ledger.take(j as int),
                        match_id@,
                        winner@,
                        season,
                    ).push(note));
                }
            }
            j += 1;
        }
        proof {
            assert(ledger.take(j as int) =~= ledger);
        }
        (paid_total, effects)
    }

    /// Settles a match for `winner`: splits its pool among the wagers on the
    /// winner, notifies every bettor, and closes the books of the match.
    /// Settling a settled match, a match that is not registered, or with an
    /// empty text changes nothing beyond the status probe and asks for no
    /// outside work.
    pub fn settle_match_simple(
        &mut self,
        match_id: String,
        winner: String,
    ) -> (effects: Vec<Effect>)
        requires
            settlement_in_limits(
                old(self).state@,
                match_id@,
                winner@,
                old(self).runtime.authenticated_signer.deep_view(),
            ),
        ensures
            final(self).state@ == after_settlement(
                old(self).state@,
                old(self).runtime.system_time_micros,
                match_id@,
                winner@,
            ),
            effects.deep_view() == effects_of_settlement(
                old(self).state@,
                match_id@,
                winner@,
                old(self).runtime.authenticated_signer.deep_view(),
            ),
            final(self).runtime == old(self).runtime,
    {
        let ghost before = self.state@;
        let current_tournament = self.state.current_tournament;
        self.update_match_status(&match_id);
        let found = match self.state.matches.get(&match_id) {
            Some(metadata) => Some(metadata.clone()),
            None => None,
        };
        let mut metadata = match found {
            Some(metadata) => metadata,
            None => {
                return no_effects();
            },
        };
        if metadata.bet_status == MatchBetStatus::Settled {
            return no_effects();
        }
        if text_is_empty(&match_id) || text_is_empty(&winner) {
            return no_effects();
        }
        let split = match self.state.bets.get(&match_id) {
            Some(entries) => {
                let (total_payout, effects) = self.split_pool(
                    entries,
                    &match_id,
                    &winner,
                    current_tournament,
                );
                Some((entries.len() as u64, total_payout, effects))
            },
            None => None,
        };
        match split {
            Some((total_bets_count, total_payout, effects)) => {
                metadata.bet_status = MatchBetStatus::Settled;
                metadata.total_bets_count = total_bets_count;
                self.state.matches.insert(match_id.clone(), metadata);
                self.state.current_total_bets_settled = self.state.current_total_bets_settled
                    + total_bets_count;
                self.state.current_total_payouts = self.state.current_total_payouts + total_payout;
                let cleared: Vec<BetEntry> = Vec::new();
                assert(cleared.deep_view() =~= Seq::<BetEntryView>::empty());
                self.state.bets.insert(match_id, cleared);
                assert(self.state@.matches =~= after_settlement(
                    before,
                    self.runtime.system_time_micros,
                    match_id@,
                    winner@,
                ).matches);
                effects
            },
            None => {
                metadata.bet_status = MatchBetStatus::Settled;
                metadata.total_bets_count = 0;
                self.state.matches.insert(match_id, metadata);
                assert(self.state@.matches =~= after_settlement(
                    before,
                    self.runtime.system_time_micros,
                    match_id@,
                    winner@,
                ).matches);
                no_effects()
            },
        }
    }
}

} // verus!
