//! The read-only side of the friends application, and the requests that the
//! query surface turns into operations.

use vstd::prelude::*;
use crate::friendxfighter::state::{FriendRequestData, FriendState, FriendStateView};
use crate::friendxfighter::Operation;
use crate::text::{chain_id, chain_of_text};

verus! {

/// A request as the query surface reports it.
#[derive(Debug, PartialEq, Eq)]
pub struct FriendRequestView {
    pub request_id: String,
    pub from_chain: String,
    pub timestamp: u64,
    pub status: String,
}

/// Abstract value of a [`FriendRequestView`].
pub struct FriendRequestReport {
    pub request_id: Seq<char>,
    pub from_chain: Seq<char>,
    pub timestamp: u64,
    pub status: Seq<char>,
}

impl DeepView for FriendRequestView {
    type V = FriendRequestReport;

    open spec fn deep_view(&self) -> FriendRequestReport {
        FriendRequestReport {
            request_id: self.request_id@,
            from_chain: self.from_chain@,
            timestamp: self.timestamp,
            status: self.status@,
        }
    }
}

/// A friend as the query surface reports it.
#[derive(Debug, PartialEq, Eq)]
pub struct FriendView {
    pub chain_id: String,
}

impl DeepView for FriendView {
    type V = Seq<char>;

    open spec fn deep_view(&self) -> Seq<char> {
        self.chain_id@
    }
}

/// The read-only side of the friends application on one chain.
pub struct FriendService {
    pub state: FriendState,
    pub chain_id: String,
}

/// A stored request as the query surface reports it.
pub open spec fn incoming_report(request: FriendRequestData) -> FriendRequestReport {
    FriendRequestReport {
        request_id: request.request_id,
        from_chain: request.from_chain,
        timestamp: request.timestamp,
        status: request.status,
    }
}

/// The stored requests, in the order given.
pub open spec fn incoming_listing(
    order: Seq<Seq<char>>,
    requests: Map<Seq<char>, FriendRequestData>,
) -> Seq<FriendRequestReport> {
    Seq::new(order.len(), |i: int| incoming_report(requests[order[i]]))
}

/// The requests of the user that wait for an answer, in the order given:
/// each from the user's own chain, pending, without a time.
pub open spec fn outgoing_listing(
    order: Seq<Seq<char>>,
    chain: Seq<char>,
) -> Seq<FriendRequestReport> {
    Seq::new(
        order.len(),
        |i: int|
            FriendRequestReport {
                request_id: order[i],
                from_chain: chain,
                timestamp: 0,
                status: "pending"@,
            },
    )
}

/// Whether the chain that `text` names is a friend.
pub open spec fn names_friend(state: FriendStateView, text: Seq<char>) -> bool {
    match chain_of_text(text) {
        Some(chain) => state.friends.contains(chain),
        None => false,
    }
}

/// The operation that `text`, read as a chain, asks for; none where `text`
/// is not written as a chain.
pub open spec fn chain_operation(text: Seq<char>, remove: bool) -> Option<
    crate::friendxfighter::OperationView,
> {
    match chain_of_text(text) {
        Some(chain) => Some(
            if remove {
                crate::friendxfighter::OperationView::RemoveFriend { friend_chain_id: chain }
            } else {
                crate::friendxfighter::OperationView::SendFriendRequest { to_user_chain: chain }
            },
        ),
        None => None,
    }
}

impl FriendService {
    /// The friends of the user.
    pub fn friends(&self) -> (friends: Vec<FriendView>)
        ensures
            friends.deep_view() == self.state.friends.keys(),
    {
        let mut friends: Vec<FriendView> = Vec::new();
        let count = self.state.friends.len();
        let mut i: usize = 0;
        while i < count
            invariant
                i <= count,
                count == self.state.friends.keys().len(),
                friends.len() == i,
                forall|j: int|
                    0 <= j < i ==> (#[trigger] friends[j]).deep_view() == self.state.friends.keys()[j],
            decreases count - i,
        {
            friends.push(FriendView { chain_id: self.state.friends.key_at(i).clone() });
            i += 1;
        }
        assert(friends.deep_view() =~= self.state.friends.keys());
        friends
    }

    /// The requests from other users that wait for an answer.
    pub fn pending_requests(&self) -> (requests: Vec<FriendRequestView>)
        ensures
            requests.deep_view() == incoming_listing(
                self.state.pending_incoming_requests.keys(),
                self.state@.pending_incoming_requests,
            ),
    {
        let mut requests: Vec<FriendRequestView> = Vec::new();
        let count = self.state.pending_incoming_requests.len();
        let ghost listing = incoming_listing(
            self.state.pending_incoming_requests.keys(),
            self.state@.pending_incoming_requests,
        );
        let mut i: usize = 0;
        while i < count
            invariant
                i <= count,
                count == self.state.pending_incoming_requests.keys().len(),
                listing == incoming_listing(
                    self.state.pending_incoming_requests.keys(),
                    self.state@.pending_incoming_requests,
                ),
                requests.len() == i,
                forall|j: int| 0 <= j < i ==> (#[trigger] requests[j]).deep_view() == listing[j],
            decreases count - i,
        {
            let request = self.state.pending_incoming_requests.value_at(i);
            requests.push(
                FriendRequestView {
                    request_id: request.request_id.clone(),
                    from_chain: request.from_chain.clone(),
                    timestamp: request.timestamp,
                    status: request.status.clone(),
                },
            );
            i += 1;
        }
        assert(requests.deep_view() =~= listing);
        requests
    }

    /// The requests of the user that wait for an answer.
    pub fn sent_requests(&self) -> (requests: Vec<FriendRequestView>)
        ensures
            requests.deep_view() == outgoing_listing(
                self.state.pending_outgoing_requests.keys(),
                self.chain_id@,
            ),
    {
        let mut requests: Vec<FriendRequestView> = Vec::new();
        let count = self.state.pending_outgoing_requests.len();
        let ghost listing = outgoing_listing(
            self.state.pending_outgoing_requests.keys(),
            self.chain_id@,
        );
        let mut i: usize = 0;
        while i < count
            invariant
                i <= count,
                count == self.state.pending_outgoing_requests.keys().len(),
                listing == outgoing_listing(
                    self.state.pending_outgoing_requests.keys(),
                    self.chain_id@,
                ),
                requests.len() == i,
                forall|j: int| 0 <= j < i ==> (#[trigger] requests[j]).deep_view() == listing[j],
            decreases count - i,
        {
            requests.push(
                FriendRequestView {
                    request_id: self.state.pending_outgoing_requests.key_at(i).clone(),
                    from_chain: self.chain_id.clone(),
                    timestamp: 0,
                    status: "pending".to_string(),
                },
            );
            i += 1;
        }
        assert(requests.deep_view() =~= listing);
        requests
    }

    /// Whether the chain that `chain_id` names is a friend; `false` where
    /// the text is not written as a chain.
    pub fn is_friend(&self, chain_id: String) -> (friend: bool)
        ensures
            friend == names_friend(self.state@, chain_id@),
    {
        match crate::text::chain_id(&chain_id) {
            Some(chain) => self.state.friends.contains_key(&chain),
            None => false,
        }
    }

    /// The number of friends.
    pub fn friends_count(&self) -> (count: usize)
        ensures
            count == self.state@.friends.len(),
    {
        self.state.friends.len()
    }

    /// The number of requests from other users that wait for an answer.
    pub fn pending_requests_count(&self) -> (count: usize)
        ensures
            count == self.state@.pending_incoming_requests.dom().len(),
    {
        self.state.pending_incoming_requests.len()
    }

    /// The number of requests of the user that wait for an answer.
    pub fn sent_requests_count(&self) -> (count: usize)
        ensures
            count == self.state@.pending_outgoing_requests.dom().len(),
    {
        self.state.pending_outgoing_requests.len()
    }

    /// The stored request with the given id.
    pub fn friend_request(&self, request_id: String) -> (request: Option<FriendRequestView>)
        ensures
            request.deep_view() == if self.state@.pending_incoming_requests.contains_key(request_id@) {
                Some(incoming_report(self.state@.pending_incoming_requests[request_id@]))
            } else {
                None
            },
    {
        match self.state.pending_incoming_requests.get(&request_id) {
            Some(request) => Some(
                FriendRequestView {
                    request_id: request.request_id.clone(),
                    from_chain: request.from_chain.clone(),
                    timestamp: request.timestamp,
                    status: request.status.clone(),
                },
            ),
            None => None,
        }
    }

    /// The operation that sends a request to the chain that `to_user_chain`
    /// names; none where the text is not written as a chain.
    pub fn send_friend_request(to_user_chain: String) -> (operation: Option<Operation>)
        ensures
            operation.deep_view() == chain_operation(to_user_chain@, false),
    {
        match chain_id(&to_user_chain) {
            Some(chain) => Some(Operation::SendFriendRequest { to_user_chain: chain }),
            None => None,
        }
    }

    /// The operation that accepts a request.
    pub fn accept_friend_request(request_id: String) -> (operation: Operation)
        ensures
            operation.deep_view() == (crate::friendxfighter::OperationView::AcceptFriendRequest {
                request_id: request_id@,
            }),
    {
        Operation::AcceptFriendRequest { request_id }
    }

    /// The operation that rejects a request.
    pub fn reject_friend_request(request_id: String) -> (operation: Operation)
        ensures
            operation.deep_view() == (crate::friendxfighter::OperationView::RejectFriendRequest {
                request_id: request_id@,
            }),
    {
        Operation::RejectFriendRequest { request_id }
    }

    /// The operation that removes the friend on the chain that
    /// `friend_chain` names; none where the text is not written as a chain.
    pub fn remove_friend(friend_chain: String) -> (operation: Option<Operation>)
        ensures
            operation.deep_view() == chain_operation(friend_chain@, true),
    {
        match chain_id(&friend_chain) {
            Some(chain) => Some(Operation::RemoveFriend { friend_chain_id: chain }),
            None => None,
        }
    }
}

} // verus!
