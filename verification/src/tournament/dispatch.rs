//! Entry points: what the application does for each operation and for each
//! message, and how wagers and payout notices travel between chains.
//!
//! A wager is placed on the user's chain and forwarded, as a message, to the
//! chain that created the application, which owns the pools. After
//! settlement that chain sends a notice back to the chain of each wager. A
//! message that comes back undelivered is dropped.

use vstd::prelude::*;
use crate::text::{account_of_text, account_owner};
use crate::tournament::airdrop::{
    after_claim_request, after_claims, claim_effects, claims_batch, DEFAULT_CLAIM_LIMIT,
};
use crate::store::score_of;
use crate::tournament::contract::{
    ContractRuntime,
    Effect,
    EffectView,
    no_effects,
    TournamentContract,
};
use crate::tournament::ledger::{after_wager, wager_in_limits};
use crate::tournament::season::{
    after_result,
    after_season_end,
    after_season_start,
    result_is_valid,
};
use crate::tournament::settlement::{after_settlement, effects_of_settlement, settlement_in_limits};
use crate::tournament::registry::{
    after_bracket, after_match_metadata, after_participants, betting_deadline, sets_metadata,
};
use crate::tournament::state::{BetEntryView, TournamentStateView};
use crate::tournament_shared::{TournamentOperation, TournamentOperationView};
use crate::userxfighter::{Operation as UserOperation, OperationView as UserOperationView};

verus! {

/// The number of claims to process: the default where the operator names none.
pub open spec fn claim_limit(limit: Option<u32>) -> u32 {
    match limit {
        Some(n) => n,
        None => DEFAULT_CLAIM_LIMIT,
    }
}

/// Whether the signer of the operation is the owner of the tournament.
pub open spec fn signed_by_owner(runtime: ContractRuntime) -> bool {
    runtime.authenticated_signer.deep_view() == account_of_text(
        runtime.application_parameters.tournament_owner@,
    )
}

/// Whether the execution can tell the signer from the owner: it has a signer,
/// and the owner is written as an account.
pub open spec fn can_check_owner(runtime: ContractRuntime) -> bool {
    runtime.authenticated_signer is Some && account_of_text(
        runtime.application_parameters.tournament_owner@,
    ) is Some
}

/// The message that carries `message` to the chain that owns the pools.
pub open spec fn forwarded(
    runtime: ContractRuntime,
    message: TournamentOperationView,
) -> Seq<EffectView> {
    seq![
        EffectView::SendMessage { destination: runtime.application_creator_chain_id@, message },
    ]
}

/// The call that hands a payout notice to the user application registered
/// on this chain; none where no application is registered.
pub open spec fn payout_forward(
    state: TournamentStateView,
    chain_id: Seq<char>,
    bet_id: Seq<char>,
    match_id: Seq<char>,
    amount: u64,
    user_public_key: Seq<char>,
    is_win: bool,
    tournament_season: u64,
) -> Seq<EffectView> {
    if state.user_xfighter_app_ids.contains_key(chain_id) {
        seq![
            EffectView::CallUserXfighter {
                application: state.user_xfighter_app_ids[chain_id],
                operation: UserOperationView::RecordPayout {
                    bet_id,
                    match_id,
                    amount,
                    user_public_key,
                    is_win,
                    tournament_season,
                },
            },
        ]
    } else {
        Seq::empty()
    }
}

/// Whether an operation stays within the limits of the machine and has the
/// signer it needs.
pub open spec fn operation_in_limits(
    state: TournamentStateView,
    runtime: ContractRuntime,
    operation: TournamentOperationView,
) -> bool {
    match operation {
        TournamentOperationView::StartTournamentSeason { .. } => state.current_tournament < u64::MAX,
        TournamentOperationView::RecordMatch { match_id, winner, loser } => result_is_valid(
            match_id,
            winner,
            loser,
        ) ==> score_of(state.tournament_leaderboard, winner) < u64::MAX,
        TournamentOperationView::SettleMatch { match_id, winner } => settlement_in_limits(
            state,
            match_id,
            winner,
            runtime.authenticated_signer.deep_view(),
        ),
        TournamentOperationView::SetMatchMetadata { match_id, duration_minutes, status, .. } => {
            sets_metadata(state, match_id, status) ==> betting_deadline(
                runtime.system_time_micros,
                duration_minutes,
            ) <= u64::MAX
        },
        TournamentOperationView::SetAirdropAmount { .. } => can_check_owner(runtime),
        TournamentOperationView::ProcessPendingClaims { .. } => can_check_owner(runtime),
        _ => true,
    }
}

/// The state after an operation. `queue` is the order in which the pending
/// claims are listed.
pub open spec fn after_operation(
    state: TournamentStateView,
    runtime: ContractRuntime,
    queue: Seq<Seq<char>>,
    operation: TournamentOperationView,
) -> TournamentStateView {
    let now = runtime.system_time_micros;
    match operation {
        TournamentOperationView::StartTournamentSeason { name } => after_season_start(
            state,
            name,
            now,
        ),
        TournamentOperationView::EndTournamentSeason => after_season_end(state, now),
        TournamentOperationView::SetParticipants { participants } => after_participants(
            state,
            participants,
        ),
        TournamentOperationView::SetBracket { matches } => after_bracket(state, matches),
        TournamentOperationView::RecordMatch { match_id, winner, loser } => after_result(
            state,
            match_id,
            winner,
            loser,
        ),
        TournamentOperationView::SettleMatch { match_id, winner } => after_settlement(
            state,
            now,
            match_id,
            winner,
        ),
        TournamentOperationView::SetMatchMetadata {
            match_id,
            duration_minutes,
            betting_start_unix,
            status,
        } => after_match_metadata(state, now, match_id, duration_minutes, betting_start_unix, status),
        TournamentOperationView::RegisterUserXFighter { user_xfighter_app_id } => {
            TournamentStateView {
                user_xfighter_app_ids: state.user_xfighter_app_ids.insert(
                    runtime.chain_id@,
                    user_xfighter_app_id,
                ),
                ..state
            }
        },
        TournamentOperationView::SetAirdropAmount { amount } => {
            if signed_by_owner(runtime) {
                TournamentStateView { airdrop_amount: amount, ..state }
            } else {
                state
            }
        },
        TournamentOperationView::ProcessPendingClaims { limit } => {
            if signed_by_owner(runtime) {
                after_claims(state, claims_batch(queue, claim_limit(limit)).to_set())
            } else {
                state
            }
        },
        TournamentOperationView::PlaceBet { .. } => state,
        TournamentOperationView::Payout { .. } => state,
        TournamentOperationView::RequestInitialClaim { .. } => state,
    }
}

/// The outside work of an operation. `queue` is the order in which the
/// pending claims are listed.
pub open spec fn effects_of_operation(
    state: TournamentStateView,
    runtime: ContractRuntime,
    queue: Seq<Seq<char>>,
    operation: TournamentOperationView,
) -> Seq<EffectView> {
    match operation {
        TournamentOperationView::SettleMatch { match_id, winner } => effects_of_settlement(
            state,
            match_id,
            winner,
            runtime.authenticated_signer.deep_view(),
        ),
        TournamentOperationView::PlaceBet { .. } => forwarded(runtime, operation),
        TournamentOperationView::RequestInitialClaim { .. } => forwarded(runtime, operation),
        TournamentOperationView::ProcessPendingClaims { limit } => {
            if signed_by_owner(runtime) {
                claim_effects(
                    state.pending_claims,
                    claims_batch(queue, claim_limit(limit)),
                    account_of_text(runtime.application_parameters.tournament_owner@).unwrap(),
                    state.airdrop_amount,
                )
            } else {
                Seq::empty()
            }
        },
        _ => Seq::empty(),
    }
}

/// Whether a message can be handled: its delivery status is known, and the
/// wager it may carry stays within the limits of the machine.
pub open spec fn message_in_limits(
    state: TournamentStateView,
    runtime: ContractRuntime,
    message: TournamentOperationView,
) -> bool {
    match message {
        TournamentOperationView::PlaceBet {
            bet_id,
            match_id,
            player,
            amount,
            bettor,
            bettor_public_key,
            user_chain,
        } => runtime.message_is_bouncing is Some && (runtime.message_is_bouncing == Some(false)
            ==> wager_in_limits(
            state,
            runtime.system_time_micros,
            BetEntryView {
                bet_id,
                match_id,
                bettor,
                bettor_public_key,
                predicted: player,
                amount,
                user_chain,
            },
        )),
        TournamentOperationView::Payout { .. } => runtime.message_is_bouncing is Some,
        TournamentOperationView::RequestInitialClaim { .. } => runtime.message_is_bouncing is Some,
        _ => true,
    }
}

/// The state after a message. A message that comes back undelivered changes
/// nothing; so does any message but a wager or a claim.
pub open spec fn after_message(
    state: TournamentStateView,
    runtime: ContractRuntime,
    message: TournamentOperationView,
) -> TournamentStateView {
    if runtime.message_is_bouncing == Some(true) {
        state
    } else {
        match message {
            TournamentOperationView::PlaceBet {
                bet_id,
                match_id,
                player,
                amount,
                bettor,
                bettor_public_key,
                user_chain,
            } => after_wager(
                state,
                runtime.system_time_micros,
                BetEntryView {
                    bet_id,
                    match_id,
                    bettor,
                    bettor_public_key,
                    predicted: player,
                    amount,
                    user_chain,
                },
            ),
            TournamentOperationView::RequestInitialClaim { user_chain, user_public_key } => {
                after_claim_request(state, runtime.system_time_micros, user_chain, user_public_key)
            },
            _ => state,
        }
    }
}

/// The outside work of a message: a payout notice that arrives on the chain
/// it names is handed to the user application registered there.
pub open spec fn effects_of_message(
    state: TournamentStateView,
    runtime: ContractRuntime,
    message: TournamentOperationView,
) -> Seq<EffectView> {
    match message {
        TournamentOperationView::Payout {
            bet_id,
            match_id,
            amount,
            user_public_key,
            user_chain,
            is_win,
            tournament_season,
        } => {
            if runtime.message_is_bouncing == Some(false) && user_chain == runtime.chain_id@ {
                payout_forward(
                    state,
                    runtime.chain_id@,
                    bet_id,
                    match_id,
                    amount,
                    user_public_key,
                    is_win,
                    tournament_season,
                )
            } else {
                Seq::empty()
            }
        },
        _ => Seq::empty(),
    }
}

/// A list that holds one piece of outside work.
fn one_effect(effect: Effect) -> (effects: Vec<Effect>)
    ensures
        effects.deep_view() == seq![effect.deep_view()],
{
    let mut effects: Vec<Effect> = Vec::new();
    effects.push(effect);
    assert(effects.deep_view() =~= seq![effect.deep_view()]);
    effects
}

impl TournamentContract {
    /// Whether the operation is signed by the owner of the tournament.
    pub fn signer_is_owner(&self) -> (authorized: bool)
        requires
            can_check_owner(self.runtime),
        ensures
            authorized == signed_by_owner(self.runtime),
    {
        let tournament_owner = account_owner(&self.runtime.application_parameters.tournament_owner);
        match (&self.runtime.authenticated_signer, &tournament_owner) {
            (Some(current_signer), Some(owner)) => *current_signer == *owner,
            _ => false,
        }
    }

    /// The message that carries `message` to the chain that owns the pools.
    pub fn forward_to_publisher(&self, message: TournamentOperation) -> (effects: Vec<Effect>)
        ensures
            effects.deep_view() == forwarded(self.runtime, message.deep_view()),
    {
        one_effect(
            Effect::SendMessage {
                destination: self.runtime.application_creator_chain_id.clone(),
                message,
            },
        )
    }

    /// Hands a payout notice to the user application registered on this chain.
    pub fn forward_payout_to_userxfighter(
        &self,
        bet_id: String,
        match_id: String,
        amount: u64,
        user_public_key: String,
        is_win: bool,
        tournament_season: u64,
    ) -> (effects: Vec<Effect>)
        ensures
            effects.deep_view() == payout_forward(
                self.state@,
                self.runtime.chain_id@,
                bet_id@,
                match_id@,
                amount,
                user_public_key@,
                is_win,
                tournament_season,
            ),
    {
        match self.state.user_xfighter_app_ids.get(&self.runtime.chain_id) {
            Some(user_xfighter_app_id) => one_effect(
                Effect::CallUserXfighter {
                    application: user_xfighter_app_id.clone(),
                    operation: UserOperation::RecordPayout {
                        bet_id,
                        match_id,
                        amount,
                        user_public_key,
                        is_win,
                        tournament_season,
                    },
                },
            ),
            None => no_effects(),
        }
    }

    /// Carries out an operation and returns the outside work that follows.
    pub fn execute_operation(&mut self, operation: TournamentOperation) -> (effects: Vec<Effect>)
        requires
            operation_in_limits(old(self).state@, old(self).runtime, operation.deep_view()),
        ensures
            final(self).state@ == after_operation(
                old(self).state@,
                old(self).runtime,
                old(self).state.pending_claims.keys(),
                operation.deep_view(),
            ),
            effects.deep_view() == effects_of_operation(
                old(self).state@,
                old(self).runtime,
                old(self).state.pending_claims.keys(),
                operation.deep_view(),
            ),
            final(self).runtime == old(self).runtime,
    {
        match operation {
            TournamentOperation::StartTournamentSeason { name } => {
                self.start_tournament_season(name);
                no_effects()
            },
            TournamentOperation::EndTournamentSeason => {
                self.end_tournament_season();
                no_effects()
            },
            TournamentOperation::SetParticipants { participants } => {
                self.set_participants(participants);
                no_effects()
            },
            TournamentOperation::SetBracket { matches } => {
                self.set_bracket(matches);
                no_effects()
            },
            TournamentOperation::RecordMatch { match_id, winner, loser } => {
                self.record_match(match_id, winner, loser);
                no_effects()
            },
            TournamentOperation::SettleMatch { match_id, winner } => self.settle_match_simple(
                match_id,
                winner,
            ),
            TournamentOperation::SetMatchMetadata {
                match_id,
                duration_minutes,
                betting_start_unix,
                status,
            } => {
                self.set_match_metadata(match_id, duration_minutes, betting_start_unix, status);
                no_effects()
            },
            TournamentOperation::PlaceBet {
                bet_id,
                match_id,
                player,
                amount,
                bettor,
                bettor_public_key,
                user_chain,
            } => self.forward_to_publisher(
                TournamentOperation::PlaceBet {
                    bet_id,
                    match_id,
                    player,
                    amount,
                    bettor,
                    bettor_public_key,
                    user_chain,
                },
            ),
            TournamentOperation::Payout { .. } => no_effects(),
            TournamentOperation::RegisterUserXFighter { user_xfighter_app_id } => {
                let user_chain = self.runtime.chain_id.clone();
                self.state.user_xfighter_app_ids.insert(user_chain, user_xfighter_app_id);
                no_effects()
            },
            TournamentOperation::SetAirdropAmount { amount } => {
                if self.signer_is_owner() {
                    self.state.airdrop_amount = amount;
                }
                no_effects()
            },
            TournamentOperation::RequestInitialClaim { user_chain, user_public_key } => {
                self.forward_to_publisher(
                    TournamentOperation::RequestInitialClaim { user_chain, user_public_key },
                )
            },
            TournamentOperation::ProcessPendingClaims { limit } => {
                if self.signer_is_owner() {
                    let batch_limit = match limit {
                        Some(n) => n,
                        None => DEFAULT_CLAIM_LIMIT,
                    };
                    self.process_pending_claims(batch_limit)
                } else {
                    no_effects()
                }
            },
        }
    }

    /// Handles a message from another chain and returns the outside work
    /// that follows.
    pub fn execute_message(&mut self, message: TournamentOperation) -> (effects: Vec<Effect>)
        requires
            message_in_limits(old(self).state@, old(self).runtime, message.deep_view()),
        ensures
            final(self).state@ == after_message(
                old(self).state@,
                old(self).runtime,
                message.deep_view(),
            ),
            effects.deep_view() == effects_of_message(
                old(self).state@,
                old(self).runtime,
                message.deep_view(),
            ),
            final(self).runtime == old(self).runtime,
    {
        match message {
            TournamentOperation::PlaceBet {
                bet_id,
                match_id,
                player,
                amount,
                bettor,
                bettor_public_key,
                user_chain,
            } => {
                let is_bouncing = match self.runtime.message_is_bouncing {
                    Some(bouncing) => bouncing,
                    None => true,
                };
                if is_bouncing {
                    return no_effects();
                }
                self.store_bet(bet_id, match_id, player, amount, bettor, bettor_public_key, user_chain);
                no_effects()
            },
            TournamentOperation::Payout {
                bet_id,
                match_id,
                amount,
                user_public_key,
                user_chain,
                is_win,
                tournament_season,
            } => {
                let is_bouncing = match self.runtime.message_is_bouncing {
                    Some(bouncing) => bouncing,
                    None => true,
                };
                if is_bouncing {
                    return no_effects();
                }
                if user_chain == self.runtime.chain_id {
                    self.forward_payout_to_userxfighter(
                        bet_id,
                        match_id,
                        amount,
                        user_public_key,
                        is_win,
                        tournament_season,
                    )
                } else {
                    no_effects()
                }
            },
            TournamentOperation::RequestInitialClaim { user_chain, user_public_key } => {
                let is_bouncing = match self.runtime.message_is_bouncing {
                    Some(bouncing) => bouncing,
                    None => true,
                };
                if is_bouncing {
                    return no_effects();
                }
                self.request_initial_claim(user_chain, user_public_key);
                no_effects()
            },
            _ => no_effects(),
        }
    }
}

} // verus!
