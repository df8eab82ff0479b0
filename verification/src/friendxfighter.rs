//! The friends application: requests, acceptance and removal of friends
//! between the chains of two users.

use vstd::prelude::*;

pub mod contract;
pub mod service;
pub mod state;

verus! {

/// What the friends application is asked to do.
#[derive(Debug, PartialEq, Eq)]
pub enum Operation {
    /// Ask the user of another chain to be friends.
    SendFriendRequest { to_user_chain: String },
    AcceptFriendRequest { request_id: String },
    RejectFriendRequest { request_id: String },
    RemoveFriend { friend_chain_id: String },
}

/// Abstract value of an [`Operation`].
pub enum OperationView {
    SendFriendRequest { to_user_chain: Seq<char> },
    AcceptFriendRequest { request_id: Seq<char> },
    RejectFriendRequest { request_id: Seq<char> },
    RemoveFriend { friend_chain_id: Seq<char> },
}

impl DeepView for Operation {
    type V = OperationView;

    open spec fn deep_view(&self) -> OperationView {
        match self {
            Operation::SendFriendRequest { to_user_chain } => OperationView::SendFriendRequest {
                to_user_chain: to_user_chain@,
            },
            Operation::AcceptFriendRequest { request_id } => OperationView::AcceptFriendRequest {
                request_id: request_id@,
            },
            Operation::RejectFriendRequest { request_id } => OperationView::RejectFriendRequest {
                request_id: request_id@,
            },
            Operation::RemoveFriend { friend_chain_id } => OperationView::RemoveFriend {
                friend_chain_id: friend_chain_id@,
            },
        }
    }
}

impl View for Operation {
    type V = OperationView;

    open spec fn view(&self) -> OperationView {
        self.deep_view()
    }
}

/// What the friends applications of two chains tell each other.
#[derive(Debug, PartialEq, Eq)]
pub enum Message {
    FriendRequest { request_id: String, from_chain: String },
    FriendRequestAccepted { request_id: String, from_chain: String },
    FriendRequestRejected { request_id: String, from_chain: String },
    FriendRemoved { friend_chain_id: String },
}

/// Abstract value of a [`Message`].
pub enum MessageView {
    FriendRequest { request_id: Seq<char>, from_chain: Seq<char> },
    FriendRequestAccepted { request_id: Seq<char>, from_chain: Seq<char> },
    FriendRequestRejected { request_id: Seq<char>, from_chain: Seq<char> },
    FriendRemoved { friend_chain_id: Seq<char> },
}

impl DeepView for Message {
    type V = MessageView;

    open spec fn deep_view(&self) -> MessageView {
        match self {
            Message::FriendRequest { request_id, from_chain } => MessageView::FriendRequest {
                request_id: request_id@,
                from_chain: from_chain@,
            },
            Message::FriendRequestAccepted { request_id, from_chain } => {
                MessageView::FriendRequestAccepted {
                    request_id: request_id@,
                    from_chain: from_chain@,
                }
            },
            Message::FriendRequestRejected { request_id, from_chain } => {
                MessageView::FriendRequestRejected {
                    request_id: request_id@,
                    from_chain: from_chain@,
                }
            },
            Message::FriendRemoved { friend_chain_id } => MessageView::FriendRemoved {
                friend_chain_id: friend_chain_id@,
            },
        }
    }
}

impl View for Message {
    type V = MessageView;

    open spec fn view(&self) -> MessageView {
        self.deep_view()
    }
}

/// Parameters the application is deployed with: none so far.
#[derive(Clone, Copy, Debug, PartialEq, Eq, Structural)]
pub struct Parameters {}

} // verus!
