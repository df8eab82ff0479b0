use xfighter_contracts::tournament::contract::{ContractRuntime, Effect, TournamentContract};
use xfighter_contracts::tournament::state::{MatchBetStatus, PendingClaim, TournamentState};
use xfighter_contracts::tournament::Parameters;
use xfighter_contracts::tournament_shared::{TournamentMatchInput, TournamentOperation};
use xfighter_contracts::userxfighter::Operation as UserOperation;

const PUBLISHER: &str = "aaaaaaaaaaaaaaaaaaaaaaaaaaaaaaaaaaaaaaaaaaaaaaaaaaaaaaaaaaaaaaaa";
const CHAIN_A: &str = "1111111111111111111111111111111111111111111111111111111111111111";
const OWNER: &str = "0x9999999999999999999999999999999999999999999999999999999999999999";
const KEY_A: &str = "0x00000000000000000000000000000000000000000000000000000000000000a1";
const ATTOS: u128 = 1_000_000_000_000_000_000;

fn contract_on(chain: &str, bouncing: Option<bool>) -> TournamentContract {
    TournamentContract {
        state: TournamentState::new(),
        runtime: ContractRuntime {
            chain_id: chain.to_string(),
            application_creator_chain_id: PUBLISHER.to_string(),
            system_time_micros: 50,
            authenticated_signer: Some(OWNER.to_string()),
            message_is_bouncing: bouncing,
            application_parameters: Parameters {
                fungible_app_id: "fungible".to_string(),
                tournament_owner: OWNER.to_string(),
                publisher_chain_id: PUBLISHER.to_string(),
            },
        },
    }
}

fn place_bet(bet_id: &str, player: &str, amount: u64) -> TournamentOperation {
    TournamentOperation::PlaceBet {
        bet_id: bet_id.to_string(),
        match_id: "m1".to_string(),
        player: player.to_string(),
        amount,
        bettor: "bettor".to_string(),
        bettor_public_key: KEY_A.to_string(),
        user_chain: CHAIN_A.to_string(),
    }
}

fn payout(chain: &str, is_win: bool) -> TournamentOperation {
    TournamentOperation::Payout {
        bet_id: "b1".to_string(),
        match_id: "m1".to_string(),
        amount: 400,
        user_public_key: KEY_A.to_string(),
        user_chain: chain.to_string(),
        is_win,
        tournament_season: 3,
    }
}

fn open_m1(contract: &mut TournamentContract) {
    contract.execute_operation(TournamentOperation::SetBracket {
        matches: vec![TournamentMatchInput {
            match_id: "m1".to_string(),
            player1: "alice".to_string(),
            player2: "bob".to_string(),
            winner: None,
            round: "final".to_string(),
            status: "scheduled".to_string(),
        }],
    });
    contract.execute_operation(TournamentOperation::SetMatchMetadata {
        match_id: "m1".to_string(),
        duration_minutes: 5,
        betting_start_unix: None,
        status: Some("Open".to_string()),
    });
}

#[test]
fn wager_placed_on_a_user_chain_is_forwarded_to_the_pool() {
    let mut contract = contract_on(CHAIN_A, None);
    let effects = contract.execute_operation(place_bet("b1", "alice", 100));
    assert_eq!(
        effects,
        vec![Effect::SendMessage { destination: PUBLISHER.to_string(), message: place_bet("b1", "alice", 100) }]
    );
    assert_eq!(contract.state.bets.len(), 0);
    assert_eq!(contract.state.current_total_bets_placed, 0);
}

#[test]
fn wager_message_is_stored_by_the_pool() {
    let mut contract = contract_on(PUBLISHER, Some(false));
    open_m1(&mut contract);
    let effects = contract.execute_message(place_bet("b1", "alice", 100));
    assert!(effects.is_empty());
    assert_eq!(contract.state.bets.get(&"m1".to_string()).unwrap().len(), 1);
    assert_eq!(contract.state.matches.get(&"m1".to_string()).unwrap().total_bets_a, 100);
    assert_eq!(contract.state.current_total_bets_placed, 1);
}

#[test]
fn bouncing_wager_is_not_recorded() {
    let mut contract = contract_on(PUBLISHER, Some(true));
    open_m1(&mut contract);
    let effects = contract.execute_message(place_bet("b1", "alice", 100));
    assert!(effects.is_empty());
    assert!(!contract.state.bets.contains_key(&"m1".to_string()));
    assert_eq!(contract.state.matches.get(&"m1".to_string()).unwrap().total_bets_a, 0);
    assert_eq!(contract.state.current_total_bets_placed, 0);
}

#[test]
fn payout_notice_is_handed_to_the_registered_user_application() {
    let mut contract = contract_on(CHAIN_A, Some(false));
    contract.execute_operation(TournamentOperation::RegisterUserXFighter {
        user_xfighter_app_id: "user-app".to_string(),
    });
    assert_eq!(contract.state.user_xfighter_app_ids.get(&CHAIN_A.to_string()), Some(&"user-app".to_string()));

    let effects = contract.execute_message(payout(CHAIN_A, true));

    assert_eq!(
        effects,
        vec![Effect::CallUserXfighter {
            application: "user-app".to_string(),
            operation: UserOperation::RecordPayout {
                bet_id: "b1".to_string(),
                match_id: "m1".to_string(),
                amount: 400,
                user_public_key: KEY_A.to_string(),
                is_win: true,
                tournament_season: 3,
            },
        }]
    );
}

#[test]
fn payout_notice_for_another_chain_or_without_application_is_dropped() {
    let mut contract = contract_on(CHAIN_A, Some(false));
    assert!(contract.execute_message(payout(CHAIN_A, false)).is_empty());
    contract.execute_operation(TournamentOperation::RegisterUserXFighter {
        user_xfighter_app_id: "user-app".to_string(),
    });
    assert!(contract.execute_message(payout(PUBLISHER, false)).is_empty());
    assert_eq!(contract.execute_message(payout(CHAIN_A, false)).len(), 1);
}

#[test]
fn bouncing_payout_notice_is_dropped() {
    let mut contract = contract_on(CHAIN_A, Some(true));
    contract.execute_operation(TournamentOperation::RegisterUserXFighter {
        user_xfighter_app_id: "user-app".to_string(),
    });
    assert!(contract.execute_message(payout(CHAIN_A, true)).is_empty());
}

#[test]
fn payout_operation_and_other_messages_are_ignored() {
    let mut contract = contract_on(PUBLISHER, None);
    assert!(contract.execute_operation(payout(PUBLISHER, true)).is_empty());
    assert!(contract.execute_message(TournamentOperation::EndTournamentSeason).is_empty());
    assert!(contract
        .execute_message(TournamentOperation::SettleMatch { match_id: "m1".into(), winner: "alice".into() })
        .is_empty());
    assert_eq!(contract.state.tournament_metadata.len(), 0);
    assert_eq!(contract.state.status, "");
}

#[test]
fn operations_reach_their_handlers() {
    let mut contract = contract_on(PUBLISHER, Some(false));
    contract.instantiate(None);
    contract.execute_operation(TournamentOperation::StartTournamentSeason { name: "Spring".to_string() });
    contract.execute_operation(TournamentOperation::SetParticipants {
        participants: vec!["alice".to_string(), "bob".to_string()],
    });
    open_m1(&mut contract);
    contract.execute_message(place_bet("b1", "alice", 100));
    contract.execute_message(place_bet("b2", "bob", 300));
    contract.execute_operation(TournamentOperation::RecordMatch {
        match_id: "m1".to_string(),
        winner: "alice".to_string(),
        loser: "bob".to_string(),
    });
    let effects = contract.execute_operation(TournamentOperation::SettleMatch {
        match_id: "m1".to_string(),
        winner: "alice".to_string(),
    });
    assert_eq!(effects.len(), 3);
    assert_eq!(
        effects[0],
        Effect::Transfer {
            owner: OWNER.to_string(),
            amount_attos: 400 * ATTOS,
            target_chain: CHAIN_A.to_string(),
            target_owner: KEY_A.to_string(),
        }
    );
    assert_eq!(contract.state.matches.get(&"m1".to_string()).unwrap().bet_status, MatchBetStatus::Settled);
    contract.execute_operation(TournamentOperation::EndTournamentSeason);
    assert_eq!(contract.state.past_tournament_payouts.get(&1), Some(&400));
    assert_eq!(contract.state.past_tournament_leaderboards.get(&(1, "alice".to_string())), Some(&1));
    assert_eq!(contract.state.past_tournament_leaderboards.get(&(1, "bob".to_string())), Some(&0));
}

#[test]
fn claim_request_is_forwarded_then_queued() {
    let mut local = contract_on(CHAIN_A, None);
    let request = || TournamentOperation::RequestInitialClaim {
        user_chain: CHAIN_A.to_string(),
        user_public_key: KEY_A.to_string(),
    };
    assert_eq!(
        local.execute_operation(request()),
        vec![Effect::SendMessage { destination: PUBLISHER.to_string(), message: request() }]
    );
    assert_eq!(local.state.pending_claims.len(), 0);

    let mut pool = contract_on(PUBLISHER, Some(false));
    assert!(pool.execute_message(request()).is_empty());
    let key = format!("{CHAIN_A}:{KEY_A}");
    assert_eq!(
        pool.state.pending_claims.get(&key),
        Some(&PendingClaim { user_chain: CHAIN_A.to_string(), user_public_key: KEY_A.to_string(), requested_at: 50 })
    );

    let mut bounced = contract_on(PUBLISHER, Some(true));
    bounced.execute_message(request());
    assert_eq!(bounced.state.pending_claims.len(), 0);
}
