use xfighter_contracts::friendxfighter::Operation as FriendOperation;
use xfighter_contracts::tournament_shared::TournamentOperation;
use xfighter_contracts::userxfighter::contract::{make_bet_id, ContractRuntime, Effect, UserXfighterContract};
use xfighter_contracts::userxfighter::service::{InvalidChainId, UserXfighterService};
use xfighter_contracts::userxfighter::state::Transaction;
use xfighter_contracts::userxfighter::{Operation, Parameters};

const PUBLISHER: &str = "aaaaaaaaaaaaaaaaaaaaaaaaaaaaaaaaaaaaaaaaaaaaaaaaaaaaaaaaaaaaaaaa";
const CHAIN_A: &str = "1111111111111111111111111111111111111111111111111111111111111111";
const OWNER: &str = "0x9999999999999999999999999999999999999999999999999999999999999999";
const USER: &str = "0x00000000000000000000000000000000000000000000000000000000000000a1";
const ATTOS: u128 = 1_000_000_000_000_000_000;

fn contract_at(now: u64) -> UserXfighterContract {
    UserXfighterContract::load(ContractRuntime {
        chain_id: CHAIN_A.to_string(),
        application_id: "user-app".to_string(),
        system_time_micros: now,
        authenticated_signer: Some(USER.to_string()),
        message_is_bouncing: None,
        application_parameters: Parameters {
            local_tournament_app_id: "tournament-app".to_string(),
            fungible_app_id: "fungible-app".to_string(),
            tournament_owner: OWNER.to_string(),
            publisher_chain_id: PUBLISHER.to_string(),
            friend_app_id: "friend-app".to_string(),
        },
    })
}

fn place(contract: &mut UserXfighterContract, amount: u64) -> Vec<Effect> {
    contract.execute_operation(Operation::PlaceBet {
        user_chain: CHAIN_A.to_string(),
        user_public_key: USER.to_string(),
        match_id: "m1".to_string(),
        player: "alice".to_string(),
        amount,
    })
}

fn payout_message(bet_id: &str, chain: &str, amount: u64, is_win: bool) -> TournamentOperation {
    TournamentOperation::Payout {
        bet_id: bet_id.to_string(),
        match_id: "m1".to_string(),
        amount,
        user_public_key: USER.to_string(),
        user_chain: chain.to_string(),
        is_win,
        tournament_season: 4,
    }
}

#[test]
fn application_registers_itself_with_the_tournament() {
    let contract = contract_at(0);
    assert_eq!(
        contract.instantiate(),
        vec![Effect::CallTournament {
            application: "tournament-app".to_string(),
            operation: TournamentOperation::RegisterUserXFighter { user_xfighter_app_id: "user-app".to_string() },
        }]
    );
}

#[test]
fn placing_a_wager_pays_forwards_and_records() {
    let mut contract = contract_at(1_700_000);
    let bet_id = format!("bet_{CHAIN_A}_1700000");
    assert_eq!(make_bet_id(&CHAIN_A.to_string(), 1_700_000), bet_id);

    let effects = place(&mut contract, 25);

    assert_eq!(
        effects,
        vec![
            Effect::Transfer {
                owner: USER.to_string(),
                amount_attos: 25 * ATTOS,
                target_chain: PUBLISHER.to_string(),
                target_owner: OWNER.to_string(),
            },
            Effect::CallTournament {
                application: "tournament-app".to_string(),
                operation: TournamentOperation::PlaceBet {
                    bet_id: bet_id.clone(),
                    match_id: "m1".to_string(),
                    player: "alice".to_string(),
                    amount: 25,
                    bettor: USER.to_string(),
                    bettor_public_key: USER.to_string(),
                    user_chain: CHAIN_A.to_string(),
                },
            },
        ]
    );
    assert_eq!(
        contract.state.transactions.get(&bet_id),
        Some(&Transaction {
            tx_id: bet_id.clone(),
            tx_type: "bet_placed".to_string(),
            amount: 25,
            timestamp: 1_700_000,
            related_id: Some("m1".to_string()),
            status: "paid".to_string(),
            player: Some("alice".to_string()),
            tournament_season: None,
        })
    );
}

#[test]
fn stake_of_zero_is_not_transferred() {
    let mut contract = contract_at(3);
    let effects = place(&mut contract, 0);
    assert_eq!(effects.len(), 1);
    assert!(matches!(effects[0], Effect::CallTournament { .. }));
    assert!(contract.transfer_bet_to_tournament(&USER.to_string(), 0, &"m1".to_string()).is_empty());
    assert_eq!(contract.state.transactions.len(), 1);
}

#[test]
fn win_marks_the_wager_and_adds_a_payout_entry() {
    let mut contract = contract_at(10);
    place(&mut contract, 25);
    let bet_id = format!("bet_{CHAIN_A}_10");
    contract.runtime.system_time_micros = 99;

    contract.execute_message(payout_message(&bet_id, CHAIN_A, 100, true));

    let wager = contract.state.transactions.get(&bet_id).unwrap();
    assert_eq!(wager.status, "won");
    assert_eq!(wager.tournament_season, Some(4));
    assert_eq!(wager.amount, 25);
    assert_eq!(
        contract.state.transactions.get(&format!("payout_{bet_id}")),
        Some(&Transaction {
            tx_id: format!("payout_{bet_id}"),
            tx_type: "payout_received".to_string(),
            amount: 100,
            timestamp: 99,
            related_id: Some("m1".to_string()),
            status: "received".to_string(),
            player: Some("alice".to_string()),
            tournament_season: Some(4),
        })
    );
    assert_eq!(contract.state.transactions.len(), 2);
}

#[test]
fn loss_marks_the_wager_only() {
    let mut contract = contract_at(10);
    place(&mut contract, 25);
    let bet_id = format!("bet_{CHAIN_A}_10");
    let effects = contract.execute_operation(Operation::RecordPayout {
        bet_id: bet_id.clone(),
        match_id: "m1".to_string(),
        amount: 0,
        user_public_key: USER.to_string(),
        is_win: false,
        tournament_season: 2,
    });
    assert!(effects.is_empty());
    let wager = contract.state.transactions.get(&bet_id).unwrap();
    assert_eq!(wager.status, "lost");
    assert_eq!(wager.tournament_season, Some(2));
    assert_eq!(contract.state.transactions.len(), 1);
}

#[test]
fn payout_for_an_unknown_wager_is_recorded_without_player() {
    let mut contract = contract_at(10);
    contract.record_payout(&"b9".to_string(), &"m1".to_string(), 7, true, 1);
    let entry = contract.state.transactions.get(&"payout_b9".to_string()).unwrap();
    assert_eq!(entry.player, None);
    assert_eq!(entry.amount, 7);
    assert_eq!(contract.state.transactions.len(), 1);
    contract.record_payout(&"b8".to_string(), &"m1".to_string(), 0, false, 1);
    assert_eq!(contract.state.transactions.len(), 1);
}

#[test]
fn notice_for_another_chain_and_other_messages_are_ignored() {
    let mut contract = contract_at(10);
    place(&mut contract, 25);
    let bet_id = format!("bet_{CHAIN_A}_10");
    contract.execute_message(payout_message(&bet_id, PUBLISHER, 100, true));
    contract.execute_message(TournamentOperation::EndTournamentSeason);
    assert_eq!(contract.state.transactions.len(), 1);
    assert_eq!(contract.state.transactions.get(&bet_id).unwrap().status, "paid");
}

#[test]
fn bouncing_notice_is_not_recorded() {
    let mut contract = contract_at(10);
    place(&mut contract, 25);
    let bet_id = format!("bet_{CHAIN_A}_10");
    contract.runtime.message_is_bouncing = Some(true);
    contract.execute_message(payout_message(&bet_id, CHAIN_A, 100, true));
    assert_eq!(contract.state.transactions.len(), 1);
    assert_eq!(contract.state.transactions.get(&bet_id).unwrap().status, "paid");
    contract.runtime.message_is_bouncing = Some(false);
    contract.execute_message(payout_message(&bet_id, CHAIN_A, 100, true));
    assert_eq!(contract.state.transactions.len(), 2);
}

#[test]
fn redelivered_payout_keeps_a_single_entry_per_wager() {
    let mut contract = contract_at(10);
    place(&mut contract, 25);
    let bet_id = format!("bet_{CHAIN_A}_10");
    contract.execute_message(payout_message(&bet_id, CHAIN_A, 100, true));
    contract.runtime.system_time_micros = 11;
    contract.execute_message(payout_message(&bet_id, CHAIN_A, 100, true));
    assert_eq!(contract.state.transactions.len(), 2);
    assert_eq!(contract.state.transactions.get(&format!("payout_{bet_id}")).unwrap().timestamp, 11);
}

#[test]
fn claims_and_friend_requests_are_handed_on() {
    let mut contract = contract_at(10);
    assert_eq!(
        contract.execute_operation(Operation::RequestInitialClaim {
            user_chain: CHAIN_A.to_string(),
            user_public_key: USER.to_string(),
        }),
        vec![Effect::CallTournament {
            application: "tournament-app".to_string(),
            operation: TournamentOperation::RequestInitialClaim {
                user_chain: CHAIN_A.to_string(),
                user_public_key: USER.to_string(),
            },
        }]
    );
    let friend = |operation| vec![Effect::CallFriend { application: "friend-app".to_string(), operation }];
    assert_eq!(
        contract.execute_operation(Operation::SendFriendRequest { to_user_chain: PUBLISHER.to_string() }),
        friend(FriendOperation::SendFriendRequest { to_user_chain: PUBLISHER.to_string() })
    );
    assert_eq!(
        contract.execute_operation(Operation::AcceptFriendRequest { request_id: "r".to_string() }),
        friend(FriendOperation::AcceptFriendRequest { request_id: "r".to_string() })
    );
    assert_eq!(
        contract.execute_operation(Operation::RejectFriendRequest { request_id: "r".to_string() }),
        friend(FriendOperation::RejectFriendRequest { request_id: "r".to_string() })
    );
    assert_eq!(
        contract.execute_operation(Operation::RemoveFriend { friend_chain_id: PUBLISHER.to_string() }),
        friend(FriendOperation::RemoveFriend { friend_chain_id: PUBLISHER.to_string() })
    );
    assert_eq!(contract.state.transactions.len(), 0);
}

#[test]
fn history_is_listed_latest_first() {
    let mut contract = contract_at(10);
    place(&mut contract, 1);
    contract.runtime.system_time_micros = 30;
    place(&mut contract, 2);
    contract.runtime.system_time_micros = 20;
    place(&mut contract, 3);
    let service = UserXfighterService { state: contract.state };
    let amounts: Vec<u64> = service.transactions().iter().map(|t| t.amount).collect();
    assert_eq!(amounts, vec![2, 3, 1]);
}

#[test]
fn requests_with_a_chain_that_cannot_be_read_are_refused() {
    let upper = CHAIN_A.replace('1', "A");
    assert_eq!(
        UserXfighterService::place_bet(upper.clone(), USER.into(), "m1".into(), "alice".into(), 5),
        Ok(Operation::PlaceBet {
            user_chain: upper.to_lowercase(),
            user_public_key: USER.to_string(),
            match_id: "m1".to_string(),
            player: "alice".to_string(),
            amount: 5,
        })
    );
    assert_eq!(
        UserXfighterService::place_bet("nope".into(), USER.into(), "m1".into(), "alice".into(), 5),
        Err(InvalidChainId { text: "nope".to_string() })
    );
    assert_eq!(
        UserXfighterService::request_initial_claim(CHAIN_A.into(), USER.into()),
        Ok(Operation::RequestInitialClaim { user_chain: CHAIN_A.to_string(), user_public_key: USER.to_string() })
    );
    assert!(UserXfighterService::request_initial_claim(String::new(), USER.into()).is_err());
    assert_eq!(
        UserXfighterService::send_friend_request(CHAIN_A.into()),
        Some(Operation::SendFriendRequest { to_user_chain: CHAIN_A.to_string() })
    );
    assert_eq!(UserXfighterService::send_friend_request("x".into()), None);
    assert_eq!(
        UserXfighterService::remove_friend(CHAIN_A.into()),
        Some(Operation::RemoveFriend { friend_chain_id: CHAIN_A.to_string() })
    );
    assert_eq!(UserXfighterService::remove_friend(USER.into()), None);
    assert_eq!(
        UserXfighterService::accept_friend_request("r1".into()),
        Operation::AcceptFriendRequest { request_id: "r1".to_string() }
    );
    assert_eq!(
        UserXfighterService::reject_friend_request("r1".into()),
        Operation::RejectFriendRequest { request_id: "r1".to_string() }
    );
}
