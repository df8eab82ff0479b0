//! What the friends application keeps between operations.

use vstd::prelude::*;
use crate::store::Table;

verus! {

/// A request to be friends that has arrived from another chain.
#[derive(Debug, PartialEq, Eq)]
pub struct FriendRequest {
    pub request_id: String,
    pub from_chain: String,
    /// When the request arrived, in microseconds.
    pub timestamp: u64,
    /// `pending`, `accepted` or `rejected`.
    pub status: String,
}

/// Abstract value of a [`FriendRequest`].
pub struct FriendRequestData {
    pub request_id: Seq<char>,
    pub from_chain: Seq<char>,
    pub timestamp: u64,
    pub status: Seq<char>,
}

impl DeepView for FriendRequest {
    type V = FriendRequestData;

    open spec fn deep_view(&self) -> FriendRequestData {
        FriendRequestData {
            request_id: self.request_id@,
            from_chain: self.from_chain@,
            timestamp: self.timestamp,
            status: self.status@,
        }
    }
}

impl View for FriendRequest {
    type V = FriendRequestData;

    open spec fn view(&self) -> FriendRequestData {
        self.deep_view()
    }
}

impl Clone for FriendRequest {
    fn clone(&self) -> (copy: Self)
        ensures
            copy@ == self@,
    {
        FriendRequest {
            request_id: self.request_id.clone(),
            from_chain: self.from_chain.clone(),
            timestamp: self.timestamp,
            status: self.status.clone(),
        }
    }
}

/// The state of the friends application.
pub struct FriendState {
    /// The chains of the user's friends.
    pub friends: Table<String, ()>,
    /// Requests from other users that wait for an answer, by request id.
    pub pending_incoming_requests: Table<String, FriendRequest>,
    /// The chain each request of the user was sent to, by request id, while
    /// it waits for an answer.
    pub pending_outgoing_requests: Table<String, String>,
    /// Number of requests the user has sent.
    pub request_counter: u64,
}

/// Abstract value of a [`FriendState`].
pub struct FriendStateView {
    pub friends: Set<Seq<char>>,
    pub pending_incoming_requests: Map<Seq<char>, FriendRequestData>,
    pub pending_outgoing_requests: Map<Seq<char>, Seq<char>>,
    pub request_counter: u64,
}

impl View for FriendState {
    type V = FriendStateView;

    open spec fn view(&self) -> FriendStateView {
        FriendStateView {
            friends: self.friends@.dom(),
            pending_incoming_requests: self.pending_incoming_requests@,
            pending_outgoing_requests: self.pending_outgoing_requests@,
            request_counter: self.request_counter,
        }
    }
}

impl FriendState {
    /// The state of a user without friends or requests.
    pub fn new() -> (state: Self)
        ensures
            state@ == (FriendStateView {
                friends: Set::empty(),
                pending_incoming_requests: Map::empty(),
                pending_outgoing_requests: Map::empty(),
                request_counter: 0,
            }),
    {
        let state = FriendState {
            friends: Table::new(),
            pending_incoming_requests: Table::new(),
            pending_outgoing_requests: Table::new(),
            request_counter: 0,
        };
        assert(state.friends@.dom() =~= Set::<Seq<char>>::empty());
        state
    }
}

} // verus!
