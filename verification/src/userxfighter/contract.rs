//! The operations and messages of the user application.
//!
//! A wager starts here: the user's stake is moved to the owner of the
//! tournament on the chain that owns the pools, the wager is handed to the
//! tournament application on the user's own chain, and an entry is written
//! into the user's history. When the match is settled, the outcome comes
//! back and is written into the history as well.

use vstd::prelude::*;
use crate::friendxfighter::{Operation as FriendOperation, OperationView as FriendOperationView};
use crate::text::{account_of_text, account_owner, decimal_digits, decimal_text};
use crate::tournament::contract::ATTOS_PER_TOKEN;
use crate::tournament_shared::{TournamentOperation, TournamentOperationView};
use crate::userxfighter::state::{Transaction, TransactionView, UserXfighterState};
use crate::userxfighter::{Operation, OperationView, Parameters};

verus! {

/// What the application knows of the execution it runs in.
pub struct ContractRuntime {
    /// The chain the application runs on.
    pub chain_id: String,
    /// The application itself.
    pub application_id: String,
    /// The time of the block, in microseconds.
    pub system_time_micros: u64,
    /// The account that signed the operation, in canonical writing.
    pub authenticated_signer: Option<String>,
    /// For a message: whether it was rejected by its destination and has
    /// come back, where the host tells.
    pub message_is_bouncing: Option<bool>,
    pub application_parameters: Parameters,
}

/// Outside work that a handler asks of the host.
#[allow(inconsistent_fields)]
#[derive(Debug, PartialEq, Eq)]
pub enum Effect {
    /// Move tokens from `owner` on this chain to `target_owner` on `target_chain`.
    Transfer { owner: String, amount_attos: u128, target_chain: String, target_owner: String },
    /// Call the tournament application on this chain.
    CallTournament { application: String, operation: TournamentOperation },
    /// Call the friends application on this chain.
    CallFriend { application: String, operation: FriendOperation },
}

/// Abstract value of an [`Effect`].
#[allow(inconsistent_fields)]
pub enum EffectView {
    Transfer {
        owner: Seq<char>,
        amount_attos: u128,
        target_chain: Seq<char>,
        target_owner: Seq<char>,
    },
    CallTournament { application: Seq<char>, operation: TournamentOperationView },
    CallFriend { application: Seq<char>, operation: FriendOperationView },
}

impl DeepView for Effect {
    type V = EffectView;

    open spec fn deep_view(&self) -> EffectView {
        match self {
            Effect::Transfer { owner, amount_attos, target_chain, target_owner } => {
                EffectView::Transfer {
                    owner: owner@,
                    amount_attos: *amount_attos,
                    target_chain: target_chain@,
                    target_owner: target_owner@,
                }
            },
            Effect::CallTournament { application, operation } => EffectView::CallTournament {
                application: application@,
                operation: operation.deep_view(),
            },
            Effect::CallFriend { application, operation } => EffectView::CallFriend {
                application: application@,
                operation: operation.deep_view(),
            },
        }
    }
}

/// The user application: its state and the execution it runs in.
pub struct UserXfighterContract {
    pub state: UserXfighterState,
    pub runtime: ContractRuntime,
}

/// The id of the wager that the user of `chain` places at `now`.
pub open spec fn bet_id_of(chain: Seq<char>, now: u64) -> Seq<char> {
    "bet_"@ + chain + "_"@ + decimal_digits(now as nat)
}

/// The id of the history entry for the payout of a wager.
pub open spec fn payout_id_of(bet_id: Seq<char>) -> Seq<char> {
    "payout_"@ + bet_id
}

/// The transfer that pays a stake of `amount` whole tokens from `user` to
/// the owner of the tournament on the chain that owns the pools; none for a
/// stake of zero.
pub open spec fn stake_transfer(
    parameters: Parameters,
    user: Seq<char>,
    amount: u64,
) -> Seq<EffectView> {
    if amount == 0 {
        Seq::empty()
    } else {
        seq![
            EffectView::Transfer {
                owner: user,
                amount_attos: (amount * ATTOS_PER_TOKEN) as u128,
                target_chain: parameters.publisher_chain_id@,
                target_owner: account_of_text(parameters.tournament_owner@).unwrap(),
            },
        ]
    }
}

/// The history after the outcome of a wager was recorded at `now`: the
/// entry of the wager, if there is one, marked as won or lost in the season;
/// and for a win a new entry for the payout, with the player of the wager.
pub open spec fn after_payout(
    history: Map<Seq<char>, TransactionView>,
    now: u64,
    bet_id: Seq<char>,
    match_id: Seq<char>,
    amount: u64,
    is_win: bool,
    tournament_season: u64,
) -> Map<Seq<char>, TransactionView> {
    let marked = if history.contains_key(bet_id) {
        history.insert(
            bet_id,
            TransactionView {
                status: if is_win {
                    "won"@
                } else {
                    "lost"@
                },
                tournament_season: Some(tournament_season),
                ..history[bet_id]
            },
        )
    } else {
        history
    };
    if is_win {
        marked.insert(
            payout_id_of(bet_id),
            TransactionView {
                tx_id: payout_id_of(bet_id),
                tx_type: "payout_received"@,
                amount,
                timestamp: now,
                related_id: Some(match_id),
                status: "received"@,
                player: if history.contains_key(bet_id) {
                    history[bet_id].player
                } else {
                    None
                },
                tournament_season: Some(tournament_season),
            },
        )
    } else {
        marked
    }
}

/// The history entry of a wager placed at `now`.
pub open spec fn bet_entry(
    chain: Seq<char>,
    now: u64,
    match_id: Seq<char>,
    player: Seq<char>,
    amount: u64,
) -> TransactionView {
    TransactionView {
        tx_id: bet_id_of(chain, now),
        tx_type: "bet_placed"@,
        amount,
        timestamp: now,
        related_id: Some(match_id),
        status: "paid"@,
        player: Some(player),
        tournament_season: None,
    }
}

/// Whether an operation has the signer and the owner it needs.
pub open spec fn operation_in_limits(runtime: ContractRuntime, operation: OperationView) -> bool {
    match operation {
        OperationView::PlaceBet { amount, .. } => runtime.authenticated_signer is Some && (amount
            > 0 ==> account_of_text(runtime.application_parameters.tournament_owner@) is Some),
        _ => true,
    }
}

/// The history after an operation.
pub open spec fn after_operation(
    history: Map<Seq<char>, TransactionView>,
    runtime: ContractRuntime,
    operation: OperationView,
) -> Map<Seq<char>, TransactionView> {
    match operation {
        OperationView::PlaceBet { user_chain, match_id, player, amount, .. } => history.insert(
            bet_id_of(user_chain, runtime.system_time_micros),
            bet_entry(user_chain, runtime.system_time_micros, match_id, player, amount),
        ),
        OperationView::RecordPayout { bet_id, match_id, amount, is_win, tournament_season, .. } => {
            after_payout(
                history,
                runtime.system_time_micros,
                bet_id,
                match_id,
                amount,
                is_win,
                tournament_season,
            )
        },
        _ => history,
    }
}

/// The call that hands an operation to the tournament application on this chain.
pub open spec fn tournament_call(
    runtime: ContractRuntime,
    operation: TournamentOperationView,
) -> EffectView {
    EffectView::CallTournament {
        application: runtime.application_parameters.local_tournament_app_id@,
        operation,
    }
}

/// The call that hands an operation to the friends application on this chain.
pub open spec fn friend_call(
    runtime: ContractRuntime,
    operation: FriendOperationView,
) -> EffectView {
    EffectView::CallFriend { application: runtime.application_parameters.friend_app_id@, operation }
}

/// The outside work of an operation.
pub open spec fn effects_of_operation(
    runtime: ContractRuntime,
    operation: OperationView,
) -> Seq<EffectView> {
    match operation {
        OperationView::PlaceBet { user_chain, user_public_key, match_id, player, amount } => {
            let signer = runtime.authenticated_signer.deep_view().unwrap();
            stake_transfer(runtime.application_parameters, signer, amount) + seq![
                tournament_call(
                    runtime,
                    TournamentOperationView::PlaceBet {
                        bet_id: bet_id_of(user_chain, runtime.system_time_micros),
                        match_id,
                        player,
                        amount,
                        bettor: signer,
                        bettor_public_key: user_public_key,
                        user_chain,
                    },
                ),
            ]
        },
        OperationView::RecordPayout { .. } => Seq::empty(),
        OperationView::RequestInitialClaim { user_chain, user_public_key } => seq![
            tournament_call(
                runtime,
                TournamentOperationView::RequestInitialClaim { user_chain, user_public_key },
            ),
        ],
        OperationView::SendFriendRequest { to_user_chain } => seq![
            friend_call(runtime, FriendOperationView::SendFriendRequest { to_user_chain }),
        ],
        OperationView::AcceptFriendRequest { request_id } => seq![
            friend_call(runtime, FriendOperationView::AcceptFriendRequest { request_id }),
        ],
        OperationView::RejectFriendRequest { request_id } => seq![
            friend_call(runtime, FriendOperationView::RejectFriendRequest { request_id }),
        ],
        OperationView::RemoveFriend { friend_chain_id } => seq![
            friend_call(runtime, FriendOperationView::RemoveFriend { friend_chain_id }),
        ],
    }
}

/// The history after a message: a payout notice for this chain is recorded,
/// unless it comes back undelivered; anything else changes nothing.
pub open spec fn after_message(
    history: Map<Seq<char>, TransactionView>,
    runtime: ContractRuntime,
    message: TournamentOperationView,
) -> Map<Seq<char>, TransactionView> {
    match message {
        TournamentOperationView::Payout {
            bet_id,
            match_id,
            amount,
            user_chain,
            is_win,
            tournament_season,
            ..
        } => {
            if runtime.message_is_bouncing != Some(true) && user_chain == runtime.chain_id@ {
                after_payout(
                    history,
                    runtime.system_time_micros,
                    bet_id,
                    match_id,
                    amount,
                    is_win,
                    tournament_season,
                )
            } else {
                history
            }
        },
        _ => history,
    }
}

fn no_effects() -> (effects: Vec<Effect>)
    ensures
        effects.deep_view() == Seq::<EffectView>::empty(),
{
    let effects: Vec<Effect> = Vec::new();
    assert(effects.deep_view() =~= Seq::<EffectView>::empty());
    effects
}

fn one_effect(effect: Effect) -> (effects: Vec<Effect>)
    ensures
        effects.deep_view() == seq![effect.deep_view()],
{
    let mut effects: Vec<Effect> = Vec::new();
    effects.push(effect);
    assert(effects.deep_view() =~= seq![effect.deep_view()]);
    effects
}

/// The id of the wager that the user of `chain` places at `now`.
pub fn make_bet_id(chain: &String, now: u64) -> (id: String)
    ensures
        id@ == bet_id_of(chain@, now),
{
    let number = decimal_text(now);
    "bet_".to_owned().concat(chain.as_str()).concat("_").concat(number.as_str())
}

impl UserXfighterContract {
    /// The application on `runtime` with an empty history.
    pub fn load(runtime: ContractRuntime) -> (contract: Self)
        ensures
            contract.state@ == Map::<Seq<char>, TransactionView>::empty(),
            contract.runtime == runtime,
    {
        UserXfighterContract { state: UserXfighterState::new(), runtime }
    }

    /// Sets the application up: it registers itself with the tournament
    /// application on its chain.
    pub fn instantiate(&self) -> (effects: Vec<Effect>)
        ensures
            effects.deep_view() == seq![
                tournament_call(
                    self.runtime,
                    TournamentOperationView::RegisterUserXFighter {
                        user_xfighter_app_id: self.runtime.application_id@,
                    },
                ),
            ],
    {
        one_effect(
            Effect::CallTournament {
                application: self.runtime.application_parameters.local_tournament_app_id.clone(),
                operation: TournamentOperation::RegisterUserXFighter {
                    user_xfighter_app_id: self.runtime.application_id.clone(),
                },
            },
        )
    }

    /// The call that hands an operation to the friends application.
    fn call_friend(&self, operation: FriendOperation) -> (effects: Vec<Effect>)
        ensures
            effects.deep_view() == seq![friend_call(self.runtime, operation.deep_view())],
    {
        one_effect(
            Effect::CallFriend {
                application: self.runtime.application_parameters.friend_app_id.clone(),
                operation,
            },
        )
    }

    /// Whether [`execute_operation`](UserXfighterContract::execute_operation)
    /// may be called with this operation: a wager has a signer, and its
    /// stake has an owner to go to.
    pub fn operation_within_limits(&self, operation: &Operation) -> (ok: bool)
        ensures
            ok == operation_in_limits(self.runtime, operation.deep_view()),
    {
        match operation {
            Operation::PlaceBet { amount, .. } => self.runtime.authenticated_signer.is_some() && (
            *amount == 0 || account_owner(
                &self.runtime.application_parameters.tournament_owner,
            ).is_some()),
            _ => true,
        }
    }

    /// Carries out an operation and returns the outside work that follows.
    pub fn execute_operation(&mut self, operation: Operation) -> (effects: Vec<Effect>)
        requires
            operation_in_limits(old(self).runtime, operation.deep_view()),
        ensures
            final(self).state@ == after_operation(
                old(self).state@,
                old(self).runtime,
                operation.deep_view(),
            ),
            effects.deep_view() == effects_of_operation(old(self).runtime, operation.deep_view()),
            final(self).runtime == old(self).runtime,
    {
        match operation {
            Operation::PlaceBet { user_chain, user_public_key, match_id, player, amount } => {
                let signer = match &self.runtime.authenticated_signer {
                    Some(signer) => signer.clone(),
                    None => String::new(),
                };
                let mut effects = self.transfer_bet_to_tournament(&signer, amount, &match_id);
                let ghost paid = effects.deep_view();
                let now = self.runtime.system_time_micros;
                let wager = TournamentOperation::PlaceBet {
                    bet_id: make_bet_id(&user_chain, now),
                    match_id: match_id.clone(),
                    player: player.clone(),
                    amount,
                    bettor: signer,
                    bettor_public_key: user_public_key,
                    user_chain: user_chain.clone(),
                };
                let call = Effect::CallTournament {
                    application: self.runtime.application_parameters.local_tournament_app_id.clone(),
                    operation: wager,
                };
                let ghost called = call.deep_view();
                effects.push(call);
                assert(effects.deep_view() =~= paid + seq![called]);
                let tx = Transaction {
                    tx_id: make_bet_id(&user_chain, now),
                    tx_type: "bet_placed".to_string(),
                    amount,
                    timestamp: now,
                    related_id: Some(match_id),
                    status: "paid".to_string(),
                    player: Some(player),
                    tournament_season: None,
                };
                self.state.transactions.insert(tx.tx_id.clone(), tx);
                effects
            },
            Operation::RecordPayout {
                bet_id,
                match_id,
                amount,
                user_public_key: _,
                is_win,
                tournament_season,
            } => {
                self.record_payout(&bet_id, &match_id, amount, is_win, tournament_season);
                no_effects()
            },
            Operation::RequestInitialClaim { user_chain, user_public_key } => one_effect(
                Effect::CallTournament {
                    application: self.runtime.application_parameters.local_tournament_app_id.clone(),
                    operation: TournamentOperation::RequestInitialClaim {
                        user_chain,
                        user_public_key,
                    },
                },
            ),
            Operation::SendFriendRequest { to_user_chain } => self.send_friend_request(to_user_chain),
            Operation::AcceptFriendRequest { request_id } => self.accept_friend_request(request_id),
            Operation::RejectFriendRequest { request_id } => self.reject_friend_request(request_id),
            Operation::RemoveFriend { friend_chain_id } => self.remove_friend(friend_chain_id),
        }
    }

    /// Handles a message from another chain: a payout notice for this chain
    /// is written into the history, unless it comes back undelivered.
    pub fn execute_message(&mut self, message: TournamentOperation)
        ensures
            final(self).state@ == after_message(
                old(self).state@,
                old(self).runtime,
                message.deep_view(),
            ),
            final(self).runtime == old(self).runtime,
    {
        match message {
            TournamentOperation::Payout {
                bet_id,
                match_id,
                amount,
                user_public_key: _,
                user_chain,
                is_win,
                tournament_season,
            } => {
                let is_bouncing = match self.runtime.message_is_bouncing {
                    Some(bouncing) => bouncing,
                    None => false,
                };
                if !is_bouncing && user_chain == self.runtime.chain_id {
                    self.record_payout(&bet_id, &match_id, amount, is_win, tournament_season);
                }
            },
            _ => {},
        }
    }

    /// Writes the outcome of a wager into the history.
    pub fn record_payout(
        &mut self,
        bet_id: &String,
        match_id: &String,
        amount: u64,
        is_win: bool,
        tournament_season: u64,
    )
        ensures
            final(self).state@ == after_payout(
                old(self).state@,
                old(self).runtime.system_time_micros,
                bet_id@,
                match_id@,
                amount,
                is_win,
                tournament_season,
            ),
            final(self).runtime == old(self).runtime,
    {
        let mut player_from_bet: Option<String> = None;
        let found = match self.state.transactions.get(bet_id) {
            Some(wager_tx) => Some(wager_tx.clone()),
            None => None,
        };
        if let Some(wager_tx) = found {
            player_from_bet = crate::tournament_shared::clone_optional_text(&wager_tx.player);
            let mut updated_tx = wager_tx;
            if is_win {
                updated_tx.status = "won".to_string();
            } else {
                updated_tx.status = "lost".to_string();
            }
            updated_tx.tournament_season = Some(tournament_season);
            self.state.transactions.insert(bet_id.clone(), updated_tx);
        }
        if is_win {
            let payout_tx_id = crate::text::join("payout_", bet_id.as_str());
            let tx = Transaction {
                tx_id: payout_tx_id.clone(),
                tx_type: "payout_received".to_string(),
                amount,
                timestamp: self.runtime.system_time_micros,
                related_id: Some(match_id.clone()),
                status: "received".to_string(),
                player: player_from_bet,
                tournament_season: Some(tournament_season),
            };
            self.state.transactions.insert(payout_tx_id, tx);
        }
    }

    /// The transfer that pays the stake of a wager to the owner of the
    /// tournament. A stake of zero is not transferred.
    pub fn transfer_bet_to_tournament(
        &self,
        user: &String,
        amount: u64,
        _match_id: &String,
    ) -> (effects: Vec<
        Effect,
    >)
        requires
            amount > 0 ==> account_of_text(self.runtime.application_parameters.tournament_owner@)
                is Some,
        ensures
            effects.deep_view() == stake_transfer(self.runtime.application_parameters, user@, amount),
    {
        if amount == 0 {
            return no_effects();
        }
        assert(amount * ATTOS_PER_TOKEN <= u128::MAX) by (nonlinear_arith)
            requires
                amount <= u64::MAX,
                ATTOS_PER_TOKEN == 1_000_000_000_000_000_000,
        ;
        let amount_attos: u128 = (amount as u128) * ATTOS_PER_TOKEN;
        let tournament_owner = match account_owner(
            &self.runtime.application_parameters.tournament_owner,
        ) {
            Some(owner) => owner,
            None => String::new(),
        };
        one_effect(
            Effect::Transfer {
                owner: user.clone(),
                amount_attos,
                target_chain: self.runtime.application_parameters.publisher_chain_id.clone(),
                target_owner: tournament_owner,
            },
        )
    }

    /// Hands a request to be friends on to the friends application.
    pub fn send_friend_request(&self, to_user_chain: String) -> (effects: Vec<Effect>)
        ensures
            effects.deep_view() == seq![
                friend_call(
                    self.runtime,
                    FriendOperationView::SendFriendRequest { to_user_chain: to_user_chain@ },
                ),
            ],
    {
        self.call_friend(FriendOperation::SendFriendRequest { to_user_chain })
    }

    /// Hands the acceptance of a request on to the friends application.
    pub fn accept_friend_request(&self, request_id: String) -> (effects: Vec<Effect>)
        ensures
            effects.deep_view() == seq![
                friend_call(
                    self.runtime,
                    FriendOperationView::AcceptFriendRequest { request_id: request_id@ },
                ),
            ],
    {
        self.call_friend(FriendOperation::AcceptFriendRequest { request_id })
    }

    /// Hands the rejection of a request on to the friends application.
    pub fn reject_friend_request(&self, request_id: String) -> (effects: Vec<Effect>)
        ensures
            effects.deep_view() == seq![
                friend_call(
                    self.runtime,
                    FriendOperationView::RejectFriendRequest { request_id: request_id@ },
                ),
            ],
    {
        self.call_friend(FriendOperation::RejectFriendRequest { request_id })
    }

    /// Hands the removal of a friend on to the friends application.
    pub fn remove_friend(&self, friend_chain_id: String) -> (effects: Vec<Effect>)
        ensures
            effects.deep_view() == seq![
                friend_call(
                    self.runtime,
                    FriendOperationView::RemoveFriend { friend_chain_id: friend_chain_id@ },
                ),
            ],
    {
        self.call_friend(FriendOperation::RemoveFriend { friend_chain_id })
    }
}

} // verus!
