use xfighter_contracts::tournament::contract::{ContractRuntime, TournamentContract};
use xfighter_contracts::tournament::state::{BetEntry, MatchBetStatus, TournamentState};
use xfighter_contracts::tournament::Parameters;
use xfighter_contracts::tournament_shared::TournamentMatchInput;

const PUBLISHER: &str = "aaaaaaaaaaaaaaaaaaaaaaaaaaaaaaaaaaaaaaaaaaaaaaaaaaaaaaaaaaaaaaaa";
const CHAIN_A: &str = "1111111111111111111111111111111111111111111111111111111111111111";
const KEY_A: &str = "0x00000000000000000000000000000000000000000000000000000000000000a1";

fn contract_at(now: u64) -> TournamentContract {
    TournamentContract {
        state: TournamentState::new(),
        runtime: ContractRuntime {
            chain_id: PUBLISHER.to_string(),
            application_creator_chain_id: PUBLISHER.to_string(),
            system_time_micros: now,
            authenticated_signer: None,
            message_is_bouncing: Some(false),
            application_parameters: Parameters {
                fungible_app_id: "fungible".to_string(),
                tournament_owner: KEY_A.to_string(),
                publisher_chain_id: PUBLISHER.to_string(),
            },
        },
    }
}

fn register(contract: &mut TournamentContract, match_id: &str, player1: &str, player2: &str) {
    contract.set_bracket(vec![TournamentMatchInput {
        match_id: match_id.to_string(),
        player1: player1.to_string(),
        player2: player2.to_string(),
        winner: None,
        round: "semi".to_string(),
        status: "scheduled".to_string(),
    }]);
}

fn bet(contract: &mut TournamentContract, bet_id: &str, match_id: &str, player: &str, amount: u64) {
    contract.store_bet(
        bet_id.to_string(),
        match_id.to_string(),
        player.to_string(),
        amount,
        "bettor".to_string(),
        KEY_A.to_string(),
        CHAIN_A.to_string(),
    );
}

fn ledger_len(contract: &TournamentContract, match_id: &str) -> usize {
    contract.state.bets.get(&match_id.to_string()).map(|l| l.len()).unwrap_or(0)
}

#[test]
fn accepted_wagers_add_up_to_the_totals() {
    let mut contract = contract_at(5);
    register(&mut contract, "m1", "alice", "bob");
    contract.set_match_metadata("m1".to_string(), 1, None, Some("Open".to_string()));
    let amounts = [(100u64, "alice"), (300, "bob"), (7, "alice"), (0, "bob"), (93, "bob")];
    let mut sum = 0;
    for (i, (amount, player)) in amounts.iter().enumerate() {
        bet(&mut contract, &format!("b{i}"), "m1", player, *amount);
        sum += amount;
        let meta = contract.state.matches.get(&"m1".to_string()).unwrap();
        assert_eq!(meta.total_bets_a + meta.total_bets_b, sum);
        assert_eq!(meta.total_bets_count, i as u64 + 1);
    }
    let meta = contract.state.matches.get(&"m1".to_string()).unwrap();
    assert_eq!(meta.total_bets_a, 107);
    assert_eq!(meta.total_bets_b, 393);
    assert_eq!(meta.odds_a, 500_000 / 107);
    assert_eq!(meta.odds_b, 500_000 / 393);
    assert_eq!(contract.state.current_total_bets_placed, 5);
    assert_eq!(ledger_len(&contract, "m1"), 5);
}

#[test]
fn wager_is_stored_as_submitted() {
    let mut contract = contract_at(5);
    register(&mut contract, "m1", "alice", "bob");
    contract.set_match_metadata("m1".to_string(), 1, None, Some("Open".to_string()));
    bet(&mut contract, "b1", "m1", "alice", 42);
    let ledger = contract.state.bets.get(&"m1".to_string()).unwrap();
    assert_eq!(
        ledger,
        &vec![BetEntry {
            bet_id: "b1".to_string(),
            match_id: "m1".to_string(),
            bettor: "bettor".to_string(),
            bettor_public_key: KEY_A.to_string(),
            predicted: "alice".to_string(),
            amount: 42,
            user_chain: CHAIN_A.to_string(),
        }]
    );
}

#[test]
fn first_wager_on_one_side_gives_even_odds_to_the_other() {
    let mut contract = contract_at(5);
    register(&mut contract, "m1", "alice", "bob");
    contract.set_match_metadata("m1".to_string(), 1, None, Some("Open".to_string()));
    bet(&mut contract, "b1", "m1", "alice", 250);
    let meta = contract.state.matches.get(&"m1".to_string()).unwrap();
    assert_eq!(meta.odds_a, 1000);
    assert_eq!(meta.odds_b, 1000);
    bet(&mut contract, "b2", "m1", "bob", 750);
    let meta = contract.state.matches.get(&"m1".to_string()).unwrap();
    assert_eq!(meta.odds_a, 4000);
    assert_eq!(meta.odds_b, 1333);
}

#[test]
fn wager_on_waiting_match_is_dropped() {
    let mut contract = contract_at(5);
    register(&mut contract, "m1", "alice", "bob");
    bet(&mut contract, "b1", "m1", "alice", 10);
    assert_eq!(ledger_len(&contract, "m1"), 0);
    assert_eq!(contract.state.current_total_bets_placed, 0);
    assert_eq!(
        contract.state.matches.get(&"m1".to_string()).unwrap().bet_status,
        MatchBetStatus::Waiting
    );
}

#[test]
fn wager_on_unregistered_match_is_dropped() {
    let mut contract = contract_at(5);
    bet(&mut contract, "b1", "ghost", "alice", 10);
    assert_eq!(ledger_len(&contract, "ghost"), 0);
    assert!(!contract.state.bets.contains_key(&"ghost".to_string()));
    assert_eq!(contract.state.current_total_bets_placed, 0);
}

#[test]
fn wager_after_the_deadline_closes_the_match_and_is_dropped() {
    let mut contract = contract_at(0);
    register(&mut contract, "m1", "alice", "bob");
    contract.set_match_metadata("m1".to_string(), 1, None, Some("Open".to_string()));
    bet(&mut contract, "b1", "m1", "alice", 10);
    contract.runtime.system_time_micros = 59_999_999;
    bet(&mut contract, "b2", "m1", "bob", 10);
    assert_eq!(ledger_len(&contract, "m1"), 2);

    contract.runtime.system_time_micros = 60_000_000;
    bet(&mut contract, "b3", "m1", "bob", 10);

    assert_eq!(ledger_len(&contract, "m1"), 2);
    assert_eq!(contract.state.current_total_bets_placed, 2);
    let meta = contract.state.matches.get(&"m1".to_string()).unwrap();
    assert_eq!(meta.bet_status, MatchBetStatus::Closed);
    assert_eq!(meta.total_bets_a + meta.total_bets_b, 20);
}

#[test]
fn wager_on_closed_or_settled_match_never_reaches_a_settlement() {
    let mut contract = contract_at(0);
    contract.runtime.authenticated_signer = Some(KEY_A.to_string());
    register(&mut contract, "m1", "alice", "bob");
    contract.set_match_metadata("m1".to_string(), 1, None, Some("Open".to_string()));
    contract.set_match_metadata("m1".to_string(), 1, None, Some("Closed".to_string()));
    assert_eq!(
        contract.state.matches.get(&"m1".to_string()).unwrap().bet_status,
        MatchBetStatus::Closed
    );
    bet(&mut contract, "late", "m1", "alice", 10);
    assert_eq!(ledger_len(&contract, "m1"), 0);

    let effects = contract.settle_match_simple("m1".to_string(), "alice".to_string());
    assert!(effects.is_empty());
    assert_eq!(contract.state.current_total_payouts, 0);

    bet(&mut contract, "later", "m1", "alice", 10);
    assert_eq!(ledger_len(&contract, "m1"), 0);
    assert_eq!(contract.state.current_total_bets_placed, 0);
    assert!(contract.settle_match_simple("m1".to_string(), "alice".to_string()).is_empty());
}

#[test]
fn wager_on_a_stranger_is_dropped() {
    let mut contract = contract_at(5);
    register(&mut contract, "m1", "alice", "bob");
    contract.set_match_metadata("m1".to_string(), 1, None, Some("Open".to_string()));
    bet(&mut contract, "b1", "m1", "alice", 10);
    let before = contract.state.matches.get(&"m1".to_string()).unwrap().clone();

    bet(&mut contract, "b2", "m1", "carol", 99);

    assert_eq!(contract.state.matches.get(&"m1".to_string()), Some(&before));
    assert_eq!(before.total_bets_a + before.total_bets_b, 10);
    assert_eq!(before.total_bets_count, 1);
    assert_eq!(ledger_len(&contract, "m1"), 1);
    assert_eq!(contract.state.current_total_bets_placed, 1);
    assert_eq!(contract.state.bets.get(&"m1".to_string()).unwrap()[0].bet_id, "b1");
}

#[test]
fn first_wager_on_a_stranger_leaves_no_ledger() {
    let mut contract = contract_at(5);
    register(&mut contract, "m1", "alice", "bob");
    contract.set_match_metadata("m1".to_string(), 1, None, Some("Open".to_string()));
    bet(&mut contract, "b1", "m1", "", 7);
    bet(&mut contract, "b2", "m1", "Alice", 7);
    assert!(!contract.state.bets.contains_key(&"m1".to_string()));
    assert_eq!(contract.state.current_total_bets_placed, 0);
    let meta = contract.state.matches.get(&"m1".to_string()).unwrap();
    assert_eq!((meta.total_bets_a, meta.total_bets_b, meta.odds_a, meta.odds_b), (0, 0, 1000, 1000));
}

#[test]
fn totals_equal_the_ledger_whatever_is_submitted() {
    let mut contract = contract_at(0);
    register(&mut contract, "m1", "alice", "bob");
    register(&mut contract, "m2", "carol", "dave");
    contract.set_match_metadata("m1".to_string(), 2, None, Some("Open".to_string()));
    contract.set_match_metadata("m2".to_string(), 1, None, Some("Open".to_string()));
    let submitted = [
        ("m1", "alice", 10u64, 0u64),
        ("m1", "carol", 5, 1),
        ("m2", "carol", 5, 2),
        ("m3", "alice", 9, 3),
        ("m1", "bob", 0, 4),
        ("m2", "dave", 11, 60_000_000),
        ("m1", "bob", 4, 60_000_001),
        ("m1", "alice", 8, 120_000_003),
    ];
    for (i, (match_id, player, amount, now)) in submitted.iter().enumerate() {
        contract.runtime.system_time_micros = *now;
        bet(&mut contract, &format!("b{i}"), match_id, player, *amount);
        if i == 3 {
            contract.set_match_metadata("m1".to_string(), 2, None, Some("Open".to_string()));
        }
        for id in ["m1", "m2"] {
            let meta = contract.state.matches.get(&id.to_string()).unwrap();
            let sum: u64 = contract
                .state
                .bets
                .get(&id.to_string())
                .map(|ledger| ledger.iter().map(|b| b.amount).sum())
                .unwrap_or(0);
            assert_eq!(meta.total_bets_a + meta.total_bets_b, sum);
        }
    }
    assert_eq!(ledger_len(&contract, "m1"), 3);
    assert_eq!(ledger_len(&contract, "m2"), 1);
    assert_eq!(contract.state.current_total_bets_placed, 4);
}

#[test]
fn status_probe_reports_whether_it_closed_the_match() {
    let mut contract = contract_at(0);
    register(&mut contract, "m1", "alice", "bob");
    assert!(!contract.update_match_status(&"m1".to_string()));
    contract.set_match_metadata("m1".to_string(), 2, None, Some("Open".to_string()));
    assert!(!contract.update_match_status(&"m1".to_string()));
    contract.runtime.system_time_micros = 120_000_000;
    assert!(contract.update_match_status(&"m1".to_string()));
    assert!(!contract.update_match_status(&"m1".to_string()));
    assert!(!contract.update_match_status(&"nothing".to_string()));
    assert_eq!(
        contract.state.matches.get(&"m1".to_string()).unwrap().bet_status,
        MatchBetStatus::Closed
    );
}

#[test]
fn odds_of_the_contract_follow_the_formula() {
    assert_eq!(TournamentContract::calculate_odds(400, 0), 1000);
    assert_eq!(TournamentContract::calculate_odds(400, 100), 4000);
    assert_eq!(TournamentContract::calculate_odds(1, 3), 333);
    assert_eq!(TournamentContract::calculate_odds(u64::MAX, u64::MAX), 1000);
    assert_eq!(TournamentContract::calculate_odds(u64::MAX / 1000, 1), (u64::MAX / 1000) * 1000);
}
