//! The read-only side of the user application, and the requests that the
//! query surface turns into operations.

use vstd::prelude::*;
use crate::ranking::{is_ranking_of, sort_by_rank, Ranked};
use crate::text::{chain_id, chain_of_text};
use crate::userxfighter::state::{Transaction, TransactionView, UserXfighterState};
use crate::userxfighter::{Operation, OperationView};

verus! {

impl Ranked for Transaction {
    open spec fn rank_of(row: TransactionView) -> u64 {
        row.timestamp
    }

    fn rank(&self) -> (rank: u64) {
        self.timestamp
    }
}

/// The read-only side of the user application.
pub struct UserXfighterService {
    pub state: UserXfighterState,
}

/// A text that was given for a chain and is not written as one.
#[derive(Debug, PartialEq, Eq)]
pub struct InvalidChainId {
    pub text: String,
}

/// The entries of a history, in the order given.
pub open spec fn history_listing(
    order: Seq<Seq<char>>,
    history: Map<Seq<char>, TransactionView>,
) -> Seq<TransactionView> {
    Seq::new(order.len(), |i: int| history[order[i]])
}

impl UserXfighterService {
    /// The history of the user, latest entry first.
    pub fn transactions(&self) -> (entries: Vec<Transaction>)
        ensures
            is_ranking_of::<Transaction>(
                entries.deep_view(),
                history_listing(self.state.transactions.keys(), self.state@),
            ),
    {
        let mut txs: Vec<Transaction> = Vec::new();
        let count = self.state.transactions.len();
        let ghost listing = history_listing(self.state.transactions.keys(), self.state@);
        let mut i: usize = 0;
        while i < count
            invariant
                i <= count,
                count == self.state.transactions.keys().len(),
                listing == history_listing(self.state.transactions.keys(), self.state@),
                txs.len() == i,
                forall|j: int| 0 <= j < i ==> (#[trigger] txs[j]).deep_view() == listing[j],
            decreases count - i,
        {
            txs.push(self.state.transactions.value_at(i).clone());
            i += 1;
        }
        assert(txs.deep_view() =~= listing);
        sort_by_rank(txs)
    }

    /// The operation that places a wager for the user of the chain that
    /// `user_chain` names. A text that is not written as a chain is refused.
    pub fn place_bet(
        user_chain: String,
        user_public_key: String,
        match_id: String,
        player: String,
        amount: u64,
    ) -> (operation: Result<Operation, InvalidChainId>)
        ensures
            match chain_of_text(user_chain@) {
                Some(chain) => operation.is_ok() && operation.unwrap().deep_view()
                    == (OperationView::PlaceBet {
                    user_chain: chain,
                    user_public_key: user_public_key@,
                    match_id: match_id@,
                    player: player@,
                    amount,
                }),
                None => operation.is_err() && operation.unwrap_err().text@ == user_chain@,
            },
    {
        match chain_id(&user_chain) {
            Some(chain) => Ok(
                Operation::PlaceBet { user_chain: chain, user_public_key, match_id, player, amount },
            ),
            None => Err(InvalidChainId { text: user_chain }),
        }
    }

    /// The operation that claims the airdrop for the user of the chain that
    /// `user_chain` names. A text that is not written as a chain is refused.
    pub fn request_initial_claim(user_chain: String, user_public_key: String) -> (operation: Result<
        Operation,
        InvalidChainId,
    >)
        ensures
            match chain_of_text(user_chain@) {
                Some(chain) => operation.is_ok() && operation.unwrap().deep_view()
                    == (OperationView::RequestInitialClaim {
                    user_chain: chain,
                    user_public_key: user_public_key@,
                }),
                None => operation.is_err() && operation.unwrap_err().text@ == user_chain@,
            },
    {
        match chain_id(&user_chain) {
            Some(chain) => Ok(Operation::RequestInitialClaim { user_chain: chain, user_public_key }),
            None => Err(InvalidChainId { text: user_chain }),
        }
    }

    /// The operation that sends a request to be friends to the chain that
    /// `to_user_chain` names; none where the text is not written as a chain.
    pub fn send_friend_request(to_user_chain: String) -> (operation: Option<Operation>)
        ensures
            operation.deep_view() == match chain_of_text(to_user_chain@) {
                Some(chain) => Some(OperationView::SendFriendRequest { to_user_chain: chain }),
                None => None,
            },
    {
        match chain_id(&to_user_chain) {
            Some(chain) => Some(Operation::SendFriendRequest { to_user_chain: chain }),
            None => None,
        }
    }

    /// The operation that accepts a request to be friends.
    pub fn accept_friend_request(request_id: String) -> (operation: Operation)
        ensures
            operation.deep_view() == (OperationView::AcceptFriendRequest { request_id: request_id@ }),
    {
        Operation::AcceptFriendRequest { request_id }
    }

    /// The operation that rejects a request to be friends.
    pub fn reject_friend_request(request_id: String) -> (operation: Operation)
        ensures
            operation.deep_view() == (OperationView::RejectFriendRequest { request_id: request_id@ }),
    {
        Operation::RejectFriendRequest { request_id }
    }

    /// The operation that removes the friend on the chain that
    /// `friend_chain` names; none where the text is not written as a chain.
    pub fn remove_friend(friend_chain: String) -> (operation: Option<Operation>)
        ensures
            operation.deep_view() == match chain_of_text(friend_chain@) {
                Some(chain) => Some(OperationView::RemoveFriend { friend_chain_id: chain }),
                None => None,
            },
    {
        match chain_id(&friend_chain) {
            Some(chain) => Some(Operation::RemoveFriend { friend_chain_id: chain }),
            None => None,
        }
    }
}

} // verus!
