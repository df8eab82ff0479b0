use xfighter_contracts::friendxfighter::contract::{make_request_id, FriendContract, Outgoing};
use xfighter_contracts::friendxfighter::service::{FriendRequestView, FriendService, FriendView};
use xfighter_contracts::friendxfighter::state::FriendRequest;
use xfighter_contracts::friendxfighter::{Message, Operation};

const ANN: &str = "1111111111111111111111111111111111111111111111111111111111111111";
const BEN: &str = "2222222222222222222222222222222222222222222222222222222222222222";
const CAT: &str = "3333333333333333333333333333333333333333333333333333333333333333";

fn on(chain: &str, now: u64) -> FriendContract {
    FriendContract::load(chain.to_string(), now)
}

fn deliver(to: &mut FriendContract, outgoing: Vec<Outgoing>) -> Vec<Outgoing> {
    let mut replies = Vec::new();
    for message in outgoing {
        assert_eq!(message.destination, to.chain_id);
        replies.extend(to.execute_message(message.message));
    }
    replies
}

#[test]
fn request_ids_count_up() {
    assert_eq!(make_request_id(&"c".to_string(), 0), "friend_req_c_0");
    assert_eq!(make_request_id(&ANN.to_string(), 12), format!("friend_req_{ANN}_12"));
}

#[test]
fn two_users_become_friends_in_three_steps() {
    let mut ann = on(ANN, 100);
    let mut ben = on(BEN, 200);

    let request = ann.execute_operation(Operation::SendFriendRequest { to_user_chain: BEN.to_string() });
    let id = format!("friend_req_{ANN}_0");
    assert_eq!(
        request,
        vec![Outgoing {
            destination: BEN.to_string(),
            message: Message::FriendRequest { request_id: id.clone(), from_chain: ANN.to_string() },
        }]
    );
    assert_eq!(ann.state.request_counter, 1);
    assert_eq!(ann.state.pending_outgoing_requests.get(&id), Some(&BEN.to_string()));
    assert!(ann.has_pending_request_to(&BEN.to_string()));
    assert!(!ann.has_pending_request_to(&CAT.to_string()));

    assert!(deliver(&mut ben, request).is_empty());
    assert_eq!(
        ben.state.pending_incoming_requests.get(&id),
        Some(&FriendRequest {
            request_id: id.clone(),
            from_chain: ANN.to_string(),
            timestamp: 200,
            status: "pending".to_string(),
        })
    );

    let acceptance = ben.execute_operation(Operation::AcceptFriendRequest { request_id: id.clone() });
    assert_eq!(
        acceptance,
        vec![Outgoing {
            destination: ANN.to_string(),
            message: Message::FriendRequestAccepted { request_id: id.clone(), from_chain: BEN.to_string() },
        }]
    );
    assert!(ben.state.friends.contains_key(&ANN.to_string()));
    assert_eq!(ben.state.pending_incoming_requests.len(), 0);

    assert!(deliver(&mut ann, acceptance).is_empty());
    assert!(ann.state.friends.contains_key(&BEN.to_string()));
    assert_eq!(ann.state.pending_outgoing_requests.len(), 0);
}

#[test]
fn requests_that_make_no_sense_are_not_sent() {
    let mut ann = on(ANN, 0);
    assert!(ann.send_friend_request(ANN.to_string()).is_empty());
    assert_eq!(ann.send_friend_request(BEN.to_string()).len(), 1);
    assert!(ann.send_friend_request(BEN.to_string()).is_empty());
    ann.state.friends.insert(CAT.to_string(), ());
    assert!(ann.send_friend_request(CAT.to_string()).is_empty());
    assert_eq!(ann.state.request_counter, 1);
    assert_eq!(ann.state.pending_outgoing_requests.len(), 1);
}

#[test]
fn request_from_a_friend_is_accepted_at_once() {
    let mut ben = on(BEN, 0);
    ben.state.friends.insert(ANN.to_string(), ());
    let replies = ben.handle_friend_request("r1".to_string(), ANN.to_string());
    assert_eq!(
        replies,
        vec![Outgoing {
            destination: ANN.to_string(),
            message: Message::FriendRequestAccepted { request_id: "r1".to_string(), from_chain: BEN.to_string() },
        }]
    );
    assert_eq!(ben.state.pending_incoming_requests.len(), 0);
}

#[test]
fn request_that_is_stored_already_is_not_stored_again() {
    let mut ben = on(BEN, 5);
    ben.handle_friend_request("r1".to_string(), ANN.to_string());
    ben.system_time_micros = 6;
    ben.handle_friend_request("r1".to_string(), CAT.to_string());
    let stored = ben.state.pending_incoming_requests.get(&"r1".to_string()).unwrap();
    assert_eq!(stored.from_chain, ANN);
    assert_eq!(stored.timestamp, 5);
}

#[test]
fn only_pending_requests_are_accepted() {
    let mut ben = on(BEN, 5);
    assert!(ben.accept_friend_request("missing".to_string()).is_empty());
    ben.state.pending_incoming_requests.insert(
        "r1".to_string(),
        FriendRequest {
            request_id: "r1".to_string(),
            from_chain: ANN.to_string(),
            timestamp: 1,
            status: "rejected".to_string(),
        },
    );
    assert!(ben.accept_friend_request("r1".to_string()).is_empty());
    assert_eq!(ben.state.friends.len(), 0);
    assert_eq!(ben.state.pending_incoming_requests.len(), 1);
}

#[test]
fn acceptance_from_the_wrong_chain_is_ignored() {
    let mut ann = on(ANN, 0);
    ann.send_friend_request(BEN.to_string());
    let id = format!("friend_req_{ANN}_0");
    ann.handle_friend_request_accepted(id.clone(), CAT.to_string());
    ann.handle_friend_request_accepted("other".to_string(), BEN.to_string());
    assert_eq!(ann.state.friends.len(), 0);
    assert_eq!(ann.state.pending_outgoing_requests.len(), 1);
}

#[test]
fn rejection_drops_the_request_on_both_sides() {
    let mut ann = on(ANN, 0);
    let mut ben = on(BEN, 0);
    let request = ann.send_friend_request(BEN.to_string());
    deliver(&mut ben, request);
    let id = format!("friend_req_{ANN}_0");

    let rejection = ben.execute_operation(Operation::RejectFriendRequest { request_id: id.clone() });

    assert_eq!(
        rejection,
        vec![Outgoing {
            destination: ANN.to_string(),
            message: Message::FriendRequestRejected { request_id: id.clone(), from_chain: BEN.to_string() },
        }]
    );
    assert_eq!(ben.state.pending_incoming_requests.len(), 0);
    deliver(&mut ann, rejection);
    assert_eq!(ann.state.pending_outgoing_requests.len(), 0);
    assert_eq!(ann.state.friends.len(), 0);
    assert!(ben.reject_friend_request(id).is_empty());
}

#[test]
fn removing_a_friend_removes_on_both_sides() {
    let mut ann = on(ANN, 0);
    let mut ben = on(BEN, 0);
    ann.state.friends.insert(BEN.to_string(), ());
    ben.state.friends.insert(ANN.to_string(), ());
    ben.state.friends.insert(CAT.to_string(), ());

    let removal = ann.execute_operation(Operation::RemoveFriend { friend_chain_id: BEN.to_string() });

    assert_eq!(
        removal,
        vec![Outgoing {
            destination: BEN.to_string(),
            message: Message::FriendRemoved { friend_chain_id: ANN.to_string() },
        }]
    );
    assert_eq!(ann.state.friends.len(), 0);
    deliver(&mut ben, removal);
    assert!(!ben.state.friends.contains_key(&ANN.to_string()));
    assert!(ben.state.friends.contains_key(&CAT.to_string()));
}

#[test]
fn queries_report_friends_and_requests() {
    let mut ann = on(ANN, 50);
    ann.send_friend_request(BEN.to_string());
    ann.handle_friend_request("r7".to_string(), CAT.to_string());
    ann.state.friends.insert(BEN.to_uppercase().to_lowercase(), ());
    let service = FriendService { state: ann.state, chain_id: ANN.to_string() };
    assert_eq!(service.friends(), vec![FriendView { chain_id: BEN.to_string() }]);
    assert_eq!(service.friends_count(), 1);
    assert_eq!(service.pending_requests_count(), 1);
    assert_eq!(service.sent_requests_count(), 1);
    let incoming = FriendRequestView {
        request_id: "r7".to_string(),
        from_chain: CAT.to_string(),
        timestamp: 50,
        status: "pending".to_string(),
    };
    assert_eq!(service.pending_requests(), vec![FriendRequestView { ..clone_view(&incoming) }]);
    assert_eq!(service.friend_request("r7".to_string()), Some(incoming));
    assert_eq!(service.friend_request("r8".to_string()), None);
    assert_eq!(
        service.sent_requests(),
        vec![FriendRequestView {
            request_id: format!("friend_req_{ANN}_0"),
            from_chain: ANN.to_string(),
            timestamp: 0,
            status: "pending".to_string(),
        }]
    );
    assert!(service.is_friend(BEN.to_string()));
    assert!(service.is_friend(BEN.replace('2', "2").to_uppercase()));
    assert!(!service.is_friend(CAT.to_string()));
    assert!(!service.is_friend("not a chain".to_string()));
}

fn clone_view(view: &FriendRequestView) -> FriendRequestView {
    FriendRequestView {
        request_id: view.request_id.clone(),
        from_chain: view.from_chain.clone(),
        timestamp: view.timestamp,
        status: view.status.clone(),
    }
}

#[test]
fn requests_name_chains_in_canonical_writing() {
    let upper = "ABCDEF".repeat(10) + "ABCD";
    assert_eq!(
        FriendService::send_friend_request(upper.clone()),
        Some(Operation::SendFriendRequest { to_user_chain: upper.to_lowercase() })
    );
    assert_eq!(FriendService::send_friend_request("abc".to_string()), None);
    assert_eq!(
        FriendService::remove_friend(BEN.to_string()),
        Some(Operation::RemoveFriend { friend_chain_id: BEN.to_string() })
    );
    assert_eq!(FriendService::remove_friend(String::new()), None);
    assert_eq!(
        FriendService::accept_friend_request("r".to_string()),
        Operation::AcceptFriendRequest { request_id: "r".to_string() }
    );
    assert_eq!(
        FriendService::reject_friend_request("r".to_string()),
        Operation::RejectFriendRequest { request_id: "r".to_string() }
    );
}
