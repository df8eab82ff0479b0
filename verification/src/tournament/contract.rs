//! The operations and messages of the tournament application.
//!
//! A handler changes the state in memory and returns the outside work that
//! follows from it, in the order in which it is due: token transfers, calls
//! to other applications on the same chain, and messages to other chains.
//! The host performs that work; if any of it fails, the host drops the whole
//! operation together with the state it changed.

use vstd::prelude::*;
use crate::tournament::state::TournamentState;
use crate::tournament::Parameters;
use crate::tournament_shared::{TournamentOperation, TournamentOperationView};
use crate::userxfighter::{Operation as UserOperation, OperationView as UserOperationView};

verus! {

/// Smallest units of the token in one whole token.
pub const ATTOS_PER_TOKEN: u128 = 1_000_000_000_000_000_000;

/// What the application knows of the execution it runs in.
pub struct ContractRuntime {
    /// The chain the application runs on.
    pub chain_id: String,
    /// The chain that created the application: the owner of the pools.
    pub application_creator_chain_id: String,
    /// The time of the block, in microseconds.
    pub system_time_micros: u64,
    /// The account that signed the operation, in canonical writing.
    pub authenticated_signer: Option<String>,
    /// For a message: whether it was rejected by its destination and has come back.
    pub message_is_bouncing: Option<bool>,
    pub application_parameters: Parameters,
}

/// Outside work that a handler asks of the host.
#[derive(Debug, PartialEq, Eq)]
pub enum Effect {
    /// Move tokens from `owner` on this chain to `target_owner` on `target_chain`.
    Transfer { owner: String, amount_attos: u128, target_chain: String, target_owner: String },
    /// Send a tracked, authenticated message to the tournament application on
    /// another chain.
    SendMessage { destination: String, message: TournamentOperation },
    /// Call the user application registered on this chain.
    CallUserXfighter { application: String, operation: UserOperation },
}

/// Abstract value of an [`Effect`].
pub enum EffectView {
    Transfer {
        owner: Seq<char>,
        amount_attos: u128,
        target_chain: Seq<char>,
        target_owner: Seq<char>,
    },
    SendMessage { destination: Seq<char>, message: TournamentOperationView },
    CallUserXfighter { application: Seq<char>, operation: UserOperationView },
}

impl DeepView for Effect {
    type V = EffectView;

    open spec fn deep_view(&self) -> EffectView {
        match self {
            Effect::Transfer { owner, amount_attos, target_chain, target_owner } => {
                EffectView::Transfer {
                    owner: owner@,
                    amount_attos: *amount_attos,
                    target_chain: target_chain@,
                    target_owner: target_owner@,
                }
            },
            Effect::SendMessage { destination, message } => EffectView::SendMessage {
                destination: destination@,
                message: message.deep_view(),
            },
            Effect::CallUserXfighter { application, operation } => EffectView::CallUserXfighter {
                application: application@,
                operation: operation.deep_view(),
            },
        }
    }
}

impl View for Effect {
    type V = EffectView;

    open spec fn view(&self) -> EffectView {
        self.deep_view()
    }
}

/// The tournament application: its state and the execution it runs in.
pub struct TournamentContract {
    pub state: TournamentState,
    pub runtime: ContractRuntime,
}

impl TournamentContract {
    /// The application on `runtime` with nothing stored yet.
    pub fn load(runtime: ContractRuntime) -> (contract: Self)
        ensures
            contract.state@ == TournamentState::empty_view(),
            contract.runtime == runtime,
    {
        TournamentContract { state: TournamentState::new(), runtime }
    }
}

/// No outside work.
pub fn no_effects() -> (effects: Vec<Effect>)
    ensures
        effects.deep_view() == Seq::<EffectView>::empty(),
{
    let effects: Vec<Effect> = Vec::new();
    assert(effects.deep_view() =~= Seq::<EffectView>::empty());
    effects
}

} // verus!
