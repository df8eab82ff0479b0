use xfighter_contracts::fungible::{FungibleTokenService, TransactionView};
use xfighter_contracts::store::Table;
use xfighter_contracts::xfighter::{MatchResult, MatchResultWithChain, XfighterService, XfighterState};

fn transfer(id: &str, from: &str, to: &str, amount: u128, at: u64) -> TransactionView {
    TransactionView {
        tx_id: id.to_string(),
        from: from.to_string(),
        to: to.to_string(),
        amount,
        timestamp: at,
        tx_type: "transfer".to_string(),
    }
}

fn token_service() -> FungibleTokenService {
    let mut transactions = Table::new();
    for t in [
        transfer("t1", "ann", "ben", 5, 10),
        transfer("t2", "ben", "cat", 6, 30),
        transfer("t3", "cat", "ann", 7, 20),
        transfer("t4", "cat", "ben", 8, 30),
    ] {
        transactions.insert(t.tx_id.clone(), t);
    }
    FungibleTokenService { transactions }
}

fn result(p1: &str, p2: &str, at: u64) -> MatchResult {
    MatchResult { player1_username: p1.to_string(), player2_username: p2.to_string(), timestamp: at }
}

#[test]
fn transfers_are_listed_latest_first() {
    let ids: Vec<String> = token_service().transactions().into_iter().map(|t| t.tx_id).collect();
    assert_eq!(ids, vec!["t2", "t4", "t3", "t1"]);
}

#[test]
fn transfers_of_a_user_are_those_from_or_to_the_user() {
    let service = token_service();
    let of = |user: &str| -> Vec<String> {
        service.user_transactions(&user.to_string()).into_iter().map(|t| t.tx_id).collect()
    };
    assert_eq!(of("ann"), vec!["t3", "t1"]);
    assert_eq!(of("ben"), vec!["t2", "t4", "t1"]);
    assert_eq!(of("cat"), vec!["t2", "t4", "t3"]);
    assert_eq!(of("dan"), Vec::<String>::new());
    assert_eq!(service.user_transactions(&"ann".to_string())[0], transfer("t3", "cat", "ann", 7, 20));
}

#[test]
fn match_history_of_a_user_is_listed_latest_first() {
    let mut match_results = Table::new();
    match_results.insert("e1".to_string(), result("ann", "ben", 5));
    match_results.insert("e2".to_string(), result("cat", "ann", 9));
    match_results.insert("e3".to_string(), result("ben", "cat", 7));
    let mut opened_chains = Table::new();
    opened_chains.insert("c1".to_string(), ());
    opened_chains.insert("c2".to_string(), ());
    let service = XfighterService {
        state: XfighterState { match_results, opened_chains, child_apps: Table::new() },
    };
    assert_eq!(
        service.match_history_by_user("ann".to_string()),
        vec![
            MatchResultWithChain { chain_id: "e2".to_string(), match_result: result("cat", "ann", 9) },
            MatchResultWithChain { chain_id: "e1".to_string(), match_result: result("ann", "ben", 5) },
        ]
    );
    assert!(service.match_history_by_user("dan".to_string()).is_empty());
    assert_eq!(
        service.all_match_results(),
        vec![result("ann", "ben", 5), result("cat", "ann", 9), result("ben", "cat", 7)]
    );
    assert_eq!(service.all_opened_chains(), vec!["c1".to_string(), "c2".to_string()]);
    assert!(service.all_child_apps().is_empty());
}
