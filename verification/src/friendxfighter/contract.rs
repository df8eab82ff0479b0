//! The operations and messages of the friends application.
//!
//! Two users become friends in three steps: one sends a request, the other
//! accepts it, and the acceptance travels back. Each side adds the other to
//! its friends when it learns of the acceptance.

use vstd::prelude::*;
use crate::friendxfighter::state::{FriendRequest, FriendRequestData, FriendState, FriendStateView};
use crate::friendxfighter::{Message, MessageView, Operation, OperationView};
use crate::text::{decimal_digits, decimal_text};

verus! {

/// A message to the friends application on another chain.
#[derive(Debug, PartialEq, Eq)]
pub struct Outgoing {
    pub destination: String,
    pub message: Message,
}

/// Abstract value of an [`Outgoing`].
pub struct OutgoingView {
    pub destination: Seq<char>,
    pub message: MessageView,
}

impl DeepView for Outgoing {
    type V = OutgoingView;

    open spec fn deep_view(&self) -> OutgoingView {
        OutgoingView { destination: self.destination@, message: self.message.deep_view() }
    }
}

/// The friends application: its state, the chain it runs on and the time of
/// the block.
pub struct FriendContract {
    pub state: FriendState,
    pub chain_id: String,
    /// The time of the block, in microseconds.
    pub system_time_micros: u64,
}

/// Whether a request to `target` waits for an answer.
pub open spec fn has_pending_to(state: FriendStateView, target: Seq<char>) -> bool {
    exists|request_id: Seq<char>|
        #[trigger] state.pending_outgoing_requests.contains_key(request_id)
            && state.pending_outgoing_requests[request_id] == target
}

/// The id of the request with the given number from `chain`.
pub open spec fn request_id_of(chain: Seq<char>, counter: u64) -> Seq<char> {
    "friend_req_"@ + chain + "_"@ + decimal_digits(counter as nat)
}

/// Whether a request to `target` is sent: not to the user's own chain, not
/// to a friend, and not while another request to the same chain waits.
pub open spec fn sends_request(
    state: FriendStateView,
    chain: Seq<char>,
    target: Seq<char>,
) -> bool {
    target != chain && !state.friends.contains(target) && !has_pending_to(state, target)
}

/// The state after the user asked to send a request to `target`.
pub open spec fn after_send_request(
    state: FriendStateView,
    chain: Seq<char>,
    target: Seq<char>,
) -> FriendStateView {
    if sends_request(state, chain, target) {
        FriendStateView {
            request_counter: (state.request_counter + 1) as u64,
            pending_outgoing_requests: state.pending_outgoing_requests.insert(
                request_id_of(chain, state.request_counter),
                target,
            ),
            ..state
        }
    } else {
        state
    }
}

/// The messages that follow when the user asks to send a request to `target`.
pub open spec fn messages_of_send_request(
    state: FriendStateView,
    chain: Seq<char>,
    target: Seq<char>,
) -> Seq<OutgoingView> {
    if sends_request(state, chain, target) {
        seq![
            OutgoingView {
                destination: target,
                message: MessageView::FriendRequest {
                    request_id: request_id_of(chain, state.request_counter),
                    from_chain: chain,
                },
            },
        ]
    } else {
        Seq::empty()
    }
}

/// The message that tells `to` that its request was accepted.
pub open spec fn acceptance(
    chain: Seq<char>,
    request_id: Seq<char>,
    to: Seq<char>,
) -> OutgoingView {
    OutgoingView {
        destination: to,
        message: MessageView::FriendRequestAccepted { request_id, from_chain: chain },
    }
}

/// The state after a request arrived from `from` at `now`: stored as
/// pending, unless it comes from a friend or is stored already.
pub open spec fn after_request_received(
    state: FriendStateView,
    now: u64,
    request_id: Seq<char>,
    from: Seq<char>,
) -> FriendStateView {
    if state.friends.contains(from) || state.pending_incoming_requests.contains_key(request_id) {
        state
    } else {
        FriendStateView {
            pending_incoming_requests: state.pending_incoming_requests.insert(
                request_id,
                FriendRequestData { request_id, from_chain: from, timestamp: now, status: "pending"@ },
            ),
            ..state
        }
    }
}

/// The messages that follow when a request arrives from `from`: a request
/// from a friend is accepted at once.
pub open spec fn messages_of_request_received(
    state: FriendStateView,
    chain: Seq<char>,
    request_id: Seq<char>,
    from: Seq<char>,
) -> Seq<OutgoingView> {
    if state.friends.contains(from) {
        seq![acceptance(chain, request_id, from)]
    } else {
        Seq::empty()
    }
}

/// Whether the request with the given id can be accepted: it is stored and pending.
pub open spec fn can_accept(state: FriendStateView, request_id: Seq<char>) -> bool {
    state.pending_incoming_requests.contains_key(request_id)
        && state.pending_incoming_requests[request_id].status == "pending"@
}

/// The state after the user accepted a request: its sender is a friend, and
/// the request is stored no longer.
pub open spec fn after_accept(state: FriendStateView, request_id: Seq<char>) -> FriendStateView {
    if can_accept(state, request_id) {
        FriendStateView {
            friends: state.friends.insert(state.pending_incoming_requests[request_id].from_chain),
            pending_incoming_requests: state.pending_incoming_requests.remove(request_id),
            ..state
        }
    } else {
        state
    }
}

/// The messages that follow when the user accepts a request.
pub open spec fn messages_of_accept(
    state: FriendStateView,
    chain: Seq<char>,
    request_id: Seq<char>,
) -> Seq<OutgoingView> {
    if can_accept(state, request_id) {
        seq![acceptance(chain, request_id, state.pending_incoming_requests[request_id].from_chain)]
    } else {
        Seq::empty()
    }
}

/// The state after `from` reported that it accepted a request: `from` is a
/// friend and the request waits no longer, if the request was sent to `from`.
pub open spec fn after_accepted(
    state: FriendStateView,
    request_id: Seq<char>,
    from: Seq<char>,
) -> FriendStateView {
    if state.pending_outgoing_requests.contains_key(request_id)
        && state.pending_outgoing_requests[request_id] == from {
        FriendStateView {
            friends: state.friends.insert(from),
            pending_outgoing_requests: state.pending_outgoing_requests.remove(request_id),
            ..state
        }
    } else {
        state
    }
}

/// The state after the user rejected a request: the request is stored no longer.
pub open spec fn after_reject(state: FriendStateView, request_id: Seq<char>) -> FriendStateView {
    FriendStateView {
        pending_incoming_requests: state.pending_incoming_requests.remove(request_id),
        ..state
    }
}

/// The messages that follow when the user rejects a request.
pub open spec fn messages_of_reject(
    state: FriendStateView,
    chain: Seq<char>,
    request_id: Seq<char>,
) -> Seq<OutgoingView> {
    if state.pending_incoming_requests.contains_key(request_id) {
        seq![
            OutgoingView {
                destination: state.pending_incoming_requests[request_id].from_chain,
                message: MessageView::FriendRequestRejected { request_id, from_chain: chain },
            },
        ]
    } else {
        Seq::empty()
    }
}

/// The state without `friend` among the friends.
pub open spec fn without_friend(state: FriendStateView, friend: Seq<char>) -> FriendStateView {
    FriendStateView { friends: state.friends.remove(friend), ..state }
}

/// Whether an operation stays within the limits of the machine: a request
/// that is sent can still be numbered.
pub open spec fn operation_in_limits(
    state: FriendStateView,
    chain: Seq<char>,
    operation: OperationView,
) -> bool {
    match operation {
        OperationView::SendFriendRequest { to_user_chain } => sends_request(
            state,
            chain,
            to_user_chain,
        ) ==> state.request_counter < u64::MAX,
        _ => true,
    }
}

/// The state after an operation on `chain`.
pub open spec fn after_operation(
    state: FriendStateView,
    chain: Seq<char>,
    operation: OperationView,
) -> FriendStateView {
    match operation {
        OperationView::SendFriendRequest { to_user_chain } => after_send_request(
            state,
            chain,
            to_user_chain,
        ),
        OperationView::AcceptFriendRequest { request_id } => after_accept(state, request_id),
        OperationView::RejectFriendRequest { request_id } => after_reject(state, request_id),
        OperationView::RemoveFriend { friend_chain_id } => without_friend(state, friend_chain_id),
    }
}

/// The messages that follow from an operation on `chain`.
pub open spec fn messages_of_operation(
    state: FriendStateView,
    chain: Seq<char>,
    operation: OperationView,
) -> Seq<OutgoingView> {
    match operation {
        OperationView::SendFriendRequest { to_user_chain } => messages_of_send_request(
            state,
            chain,
            to_user_chain,
        ),
        OperationView::AcceptFriendRequest { request_id } => messages_of_accept(
            state,
            chain,
            request_id,
        ),
        OperationView::RejectFriendRequest { request_id } => messages_of_reject(
            state,
            chain,
            request_id,
        ),
        OperationView::RemoveFriend { friend_chain_id } => seq![
            OutgoingView {
                destination: friend_chain_id,
                message: MessageView::FriendRemoved { friend_chain_id: chain },
            },
        ],
    }
}

/// The state after a message from another chain arrived at `now`.
pub open spec fn after_message(
    state: FriendStateView,
    now: u64,
    message: MessageView,
) -> FriendStateView {
    match message {
        MessageView::FriendRequest { request_id, from_chain } => after_request_received(
            state,
            now,
            request_id,
            from_chain,
        ),
        MessageView::FriendRequestAccepted { request_id, from_chain } => after_accepted(
            state,
            request_id,
            from_chain,
        ),
        MessageView::FriendRequestRejected { request_id, .. } => FriendStateView {
            pending_outgoing_requests: state.pending_outgoing_requests.remove(request_id),
            ..state
        },
        MessageView::FriendRemoved { friend_chain_id } => without_friend(state, friend_chain_id),
    }
}

/// The messages that follow from a message that arrived on `chain`.
pub open spec fn messages_of_message(
    state: FriendStateView,
    chain: Seq<char>,
    message: MessageView,
) -> Seq<OutgoingView> {
    match message {
        MessageView::FriendRequest { request_id, from_chain } => messages_of_request_received(
            state,
            chain,
            request_id,
            from_chain,
        ),
        _ => Seq::empty(),
    }
}

fn no_messages() -> (messages: Vec<Outgoing>)
    ensures
        messages.deep_view() == Seq::<OutgoingView>::empty(),
{
    let messages: Vec<Outgoing> = Vec::new();
    assert(messages.deep_view() =~= Seq::<OutgoingView>::empty());
    messages
}

fn one_message(destination: String, message: Message) -> (messages: Vec<Outgoing>)
    ensures
        messages.deep_view() == seq![
            OutgoingView { destination: destination@, message: message.deep_view() },
        ],
{
    let mut messages: Vec<Outgoing> = Vec::new();
    messages.push(Outgoing { destination, message });
    assert(messages.deep_view() =~= seq![
        OutgoingView { destination: destination@, message: message.deep_view() },
    ]);
    messages
}

/// The id of the request with the given number from `chain`.
pub fn make_request_id(chain: &String, counter: u64) -> (id: String)
    ensures
        id@ == request_id_of(chain@, counter),
{
    let number = decimal_text(counter);
    "friend_req_".to_owned().concat(chain.as_str()).concat("_").concat(number.as_str())
}

impl FriendContract {
    /// The application on `chain_id` at time `system_time_micros`, with
    /// nothing stored yet.
    pub fn load(chain_id: String, system_time_micros: u64) -> (contract: Self)
        ensures
            contract.chain_id == chain_id,
            contract.system_time_micros == system_time_micros,
            contract.state@.friends == Set::<Seq<char>>::empty(),
            contract.state@.pending_incoming_requests == Map::<Seq<char>, FriendRequestData>::empty(),
            contract.state@.pending_outgoing_requests == Map::<Seq<char>, Seq<char>>::empty(),
            contract.state@.request_counter == 0,
    {
        FriendContract { state: FriendState::new(), chain_id, system_time_micros }
    }

    /// Whether a request to `to_user_chain` would be sent.
    pub fn would_send_request(&self, to_user_chain: &String) -> (sent: bool)
        ensures
            sent == sends_request(self.state@, self.chain_id@, to_user_chain@),
    {
        *to_user_chain != self.chain_id && !self.state.friends.contains_key(to_user_chain)
            && !self.has_pending_request_to(to_user_chain)
    }

    /// Whether [`execute_operation`](FriendContract::execute_operation) may
    /// be called with this operation.
    pub fn operation_within_limits(&self, operation: &Operation) -> (ok: bool)
        ensures
            ok == operation_in_limits(self.state@, self.chain_id@, operation.deep_view()),
    {
        match operation {
            Operation::SendFriendRequest { to_user_chain } => !self.would_send_request(to_user_chain)
                || self.state.request_counter < u64::MAX,
            _ => true,
        }
    }

    /// Carries out an operation and returns the messages that follow.
    pub fn execute_operation(&mut self, operation: Operation) -> (messages: Vec<Outgoing>)
        requires
            operation_in_limits(old(self).state@, old(self).chain_id@, operation.deep_view()),
        ensures
            final(self).state@ == after_operation(
                old(self).state@,
                old(self).chain_id@,
                operation.deep_view(),
            ),
            messages.deep_view() == messages_of_operation(
                old(self).state@,
                old(self).chain_id@,
                operation.deep_view(),
            ),
            final(self).chain_id == old(self).chain_id,
            final(self).system_time_micros == old(self).system_time_micros,
    {
        match operation {
            Operation::SendFriendRequest { to_user_chain } => self.send_friend_request(to_user_chain),
            Operation::AcceptFriendRequest { request_id } => self.accept_friend_request(request_id),
            Operation::RejectFriendRequest { request_id } => self.reject_friend_request(request_id),
            Operation::RemoveFriend { friend_chain_id } => self.remove_friend(friend_chain_id),
        }
    }

    /// Handles a message from another chain and returns the messages that follow.
    pub fn execute_message(&mut self, message: Message) -> (messages: Vec<Outgoing>)
        ensures
            final(self).state@ == after_message(
                old(self).state@,
                old(self).system_time_micros,
                message.deep_view(),
            ),
            messages.deep_view() == messages_of_message(
                old(self).state@,
                old(self).chain_id@,
                message.deep_view(),
            ),
            final(self).chain_id == old(self).chain_id,
            final(self).system_time_micros == old(self).system_time_micros,
    {
        match message {
            Message::FriendRequest { request_id, from_chain } => self.handle_friend_request(
                request_id,
                from_chain,
            ),
            Message::FriendRequestAccepted { request_id, from_chain } => {
                self.handle_friend_request_accepted(request_id, from_chain);
                no_messages()
            },
            Message::FriendRequestRejected { request_id, from_chain } => {
                self.handle_friend_request_rejected(request_id, from_chain);
                no_messages()
            },
            Message::FriendRemoved { friend_chain_id } => {
                self.handle_friend_removed(friend_chain_id);
                no_messages()
            },
        }
    }

    /// Sends a request to be friends to the user of `to_user_chain`.
    pub fn send_friend_request(&mut self, to_user_chain: String) -> (messages: Vec<Outgoing>)
        requires
            sends_request(old(self).state@, old(self).chain_id@, to_user_chain@)
                ==> old(self).state.request_counter < u64::MAX,
        ensures
            final(self).state@ == after_send_request(
                old(self).state@,
                old(self).chain_id@,
                to_user_chain@,
            ),
            messages.deep_view() == messages_of_send_request(
                old(self).state@,
                old(self).chain_id@,
                to_user_chain@,
            ),
            final(self).chain_id == old(self).chain_id,
            final(self).system_time_micros == old(self).system_time_micros,
    {
        if to_user_chain == self.chain_id {
            return no_messages();
        }
        if self.state.friends.contains_key(&to_user_chain) {
            return no_messages();
        }
        if self.has_pending_request_to(&to_user_chain) {
            return no_messages();
        }
        let counter = self.state.request_counter;
        let request_id = make_request_id(&self.chain_id, counter);
        self.state.request_counter = counter + 1;
        self.state.pending_outgoing_requests.insert(request_id.clone(), to_user_chain.clone());
        let message = Message::FriendRequest { request_id, from_chain: self.chain_id.clone() };
        one_message(to_user_chain, message)
    }

    /// Stores a request that arrived from `from_chain`. A request from a
    /// friend is accepted at once.
    pub fn handle_friend_request(
        &mut self,
        request_id: String,
        from_chain: String,
    ) -> (messages: Vec<
        Outgoing,
    >)
        ensures
            final(self).state@ == after_request_received(
                old(self).state@,
                old(self).system_time_micros,
                request_id@,
                from_chain@,
            ),
            messages.deep_view() == messages_of_request_received(
                old(self).state@,
                old(self).chain_id@,
                request_id@,
                from_chain@,
            ),
            final(self).chain_id == old(self).chain_id,
            final(self).system_time_micros == old(self).system_time_micros,
    {
        if self.state.friends.contains_key(&from_chain) {
            return self.send_friend_request_accepted(request_id, from_chain);
        }
        if self.state.pending_incoming_requests.contains_key(&request_id) {
            return no_messages();
        }
        let friend_request = FriendRequest {
            request_id: request_id.clone(),
            from_chain,
            timestamp: self.system_time_micros,
            status: "pending".to_string(),
        };
        self.state.pending_incoming_requests.insert(request_id, friend_request);
        no_messages()
    }

    /// Accepts a pending request: its sender becomes a friend and is told so.
    pub fn accept_friend_request(&mut self, request_id: String) -> (messages: Vec<Outgoing>)
        ensures
            final(self).state@ == after_accept(old(self).state@, request_id@),
            messages.deep_view() == messages_of_accept(
                old(self).state@,
                old(self).chain_id@,
                request_id@,
            ),
            final(self).chain_id == old(self).chain_id,
            final(self).system_time_micros == old(self).system_time_micros,
    {
        let found = match self.state.pending_incoming_requests.get(&request_id) {
            Some(request) => Some(request.clone()),
            None => None,
        };
        match found {
            Some(request) => {
                if request.status == "pending".to_owned() {
                    self.state.friends.insert(request.from_chain.clone(), ());
                    self.state.pending_incoming_requests.remove(&request_id);
                    assert(self.state.friends@.dom() =~= old(self).state@.friends.insert(
                        request.from_chain@,
                    ));
                    self.send_friend_request_accepted(request_id, request.from_chain)
                } else {
                    no_messages()
                }
            },
            None => no_messages(),
        }
    }

    /// The message that tells `to_chain` that its request was accepted.
    pub fn send_friend_request_accepted(
        &self,
        request_id: String,
        to_chain: String,
    ) -> (messages: Vec<
        Outgoing,
    >)
        ensures
            messages.deep_view() == seq![acceptance(self.chain_id@, request_id@, to_chain@)],
    {
        let message = Message::FriendRequestAccepted {
            request_id,
            from_chain: self.chain_id.clone(),
        };
        one_message(to_chain, message)
    }

    /// Learns that `from_chain` accepted a request.
    pub fn handle_friend_request_accepted(&mut self, request_id: String, from_chain: String)
        ensures
            final(self).state@ == after_accepted(old(self).state@, request_id@, from_chain@),
            final(self).chain_id == old(self).chain_id,
            final(self).system_time_micros == old(self).system_time_micros,
    {
        let matches = match self.state.pending_outgoing_requests.get(&request_id) {
            Some(target_chain) => *target_chain == from_chain,
            None => false,
        };
        if matches {
            self.state.friends.insert(from_chain, ());
            self.state.pending_outgoing_requests.remove(&request_id);
            assert(self.state.friends@.dom() =~= old(self).state@.friends.insert(from_chain@));
        }
    }

    /// Rejects a request: it is dropped, and its sender is told so.
    pub fn reject_friend_request(&mut self, request_id: String) -> (messages: Vec<Outgoing>)
        ensures
            final(self).state@ == after_reject(old(self).state@, request_id@),
            messages.deep_view() == messages_of_reject(
                old(self).state@,
                old(self).chain_id@,
                request_id@,
            ),
            final(self).chain_id == old(self).chain_id,
            final(self).system_time_micros == old(self).system_time_micros,
    {
        let sender = match self.state.pending_incoming_requests.get(&request_id) {
            Some(request) => Some(request.from_chain.clone()),
            None => None,
        };
        match sender {
            Some(from_chain) => {
                self.state.pending_incoming_requests.remove(&request_id);
                let message = Message::FriendRequestRejected {
                    request_id,
                    from_chain: self.chain_id.clone(),
                };
                one_message(from_chain, message)
            },
            None => {
                assert(self.state@.pending_incoming_requests.remove(request_id@)
                    =~= self.state@.pending_incoming_requests);
                no_messages()
            },
        }
    }

    /// Learns that a request was rejected: it waits no longer.
    pub fn handle_friend_request_rejected(&mut self, request_id: String, _from_chain: String)
        ensures
            final(self).state@ == (FriendStateView {
                pending_outgoing_requests: old(self).state@.pending_outgoing_requests.remove(
                    request_id@,
                ),
                ..old(self).state@
            }),
            final(self).chain_id == old(self).chain_id,
            final(self).system_time_micros == old(self).system_time_micros,
    {
        self.state.pending_outgoing_requests.remove(&request_id);
    }

    /// Removes a friend and tells the friend so.
    pub fn remove_friend(&mut self, friend_chain_id: String) -> (messages: Vec<Outgoing>)
        ensures
            final(self).state@ == without_friend(old(self).state@, friend_chain_id@),
            messages.deep_view() == seq![
                OutgoingView {
                    destination: friend_chain_id@,
                    message: MessageView::FriendRemoved { friend_chain_id: old(self).chain_id@ },
                },
            ],
            final(self).chain_id == old(self).chain_id,
            final(self).system_time_micros == old(self).system_time_micros,
    {
        self.state.friends.remove(&friend_chain_id);
        assert(self.state.friends@.dom() =~= old(self).state@.friends.remove(friend_chain_id@));
        let message = Message::FriendRemoved { friend_chain_id: self.chain_id.clone() };
        one_message(friend_chain_id, message)
    }

    /// Learns that a friend removed the user: the friend is removed in turn.
    pub fn handle_friend_removed(&mut self, friend_chain_id: String)
        ensures
            final(self).state@ == without_friend(old(self).state@, friend_chain_id@),
            final(self).chain_id == old(self).chain_id,
            final(self).system_time_micros == old(self).system_time_micros,
    {
        self.state.friends.remove(&friend_chain_id);
        assert(self.state.friends@.dom() =~= old(self).state@.friends.remove(friend_chain_id@));
    }

    /// Whether a request to `target_chain` waits for an answer.
    pub fn has_pending_request_to(&self, target_chain: &String) -> (pending: bool)
        ensures
            pending == has_pending_to(self.state@, target_chain@),
    {
        let count = self.state.pending_outgoing_requests.len();
        let ghost order = self.state.pending_outgoing_requests.keys();
        let ghost requests = self.state@.pending_outgoing_requests;
        let mut i: usize = 0;
        while i < count
            invariant
                i <= count,
                count == order.len(),
                order == self.state.pending_outgoing_requests.keys(),
                requests == self.state@.pending_outgoing_requests,
                forall|j: int| 0 <= j < i ==> requests[#[trigger] order[j]] != target_chain@,
            decreases count - i,
        {
            if *self.state.pending_outgoing_requests.value_at(i) == *target_chain {
                proof {
                    assert(requests.contains_key(order[i as int]));
                }
                return true;
            }
            i += 1;
        }
        proof {
            self.state.pending_outgoing_requests.lemma_keys_are_domain();
            assert forall|request_id: Seq<char>| #[trigger]
                requests.contains_key(request_id) implies requests[request_id] != target_chain@ by {
                let j = order.index_of(request_id);
                assert(order[j] == request_id);
            }
        }
        false
    }
}

} // verus!
